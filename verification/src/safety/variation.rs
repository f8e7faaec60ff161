//! A weighted choice between keys that serve the same purpose.

use vstd::prelude::*;
use crate::safety::chance::random_between;

verus! {

/// The sum of the weights of a list of choices.
pub open spec fn total_weight(choices: Seq<(u8, u32)>) -> nat
    decreases choices.len(),
{
    if choices.len() == 0 {
        0
    } else {
        total_weight(choices.drop_last()) + choices.last().1 as nat
    }
}

/// The choices with a positive weight, each with the weight of all choices up
/// to and with itself.
pub open spec fn cumulative(choices: Seq<(u8, u32)>) -> Seq<(u8, u128)>
    decreases choices.len(),
{
    if choices.len() == 0 {
        Seq::empty()
    } else if choices.last().1 == 0 {
        cumulative(choices.drop_last())
    } else {
        cumulative(choices.drop_last()).push(
            (choices.last().0, total_weight(choices) as u128),
        )
    }
}

/// The choice that owns `roll`, where each choice owns as many rolls as its
/// weight, in order from 0.
pub open spec fn owner(choices: Seq<(u8, u32)>, roll: nat) -> Option<u8>
    decreases choices.len(),
{
    if choices.len() == 0 {
        None
    } else if roll >= total_weight(choices.drop_last()) {
        if roll < total_weight(choices) {
            Some(choices.last().0)
        } else {
            None
        }
    } else {
        owner(choices.drop_last(), roll)
    }
}

/// A weighted choice of keys.
pub struct WeightedChoice {
    pub entries: Vec<(u8, u128)>,
    pub total: u128,
    pub choices: Ghost<Seq<(u8, u32)>>,
}

impl WeightedChoice {
    /// The entries are the cumulative weights of the choices.
    pub open spec fn wf(self) -> bool {
        &&& total_weight(self.choices@) <= u128::MAX
        &&& self.total == total_weight(self.choices@)
        &&& self.entries@ == cumulative(self.choices@)
    }

    /// A choice between keys with weights; a weight of 0 leaves a key out.
    pub fn new(choices: Vec<(u8, u32)>) -> (r: Self)
        ensures
            r.wf(),
            r.choices@ == choices@,
            r.total > 0 <==> exists|i: int| 0 <= i < choices@.len() && (#[trigger] choices@[i]).1 > 0,
    {
        let mut entries: Vec<(u8, u128)> = Vec::new();
        let mut total: u128 = 0;
        let n: usize = choices.len();
        proof {
            total_weight_fits(choices@);
            total_weight_is_positive(choices@);
        }
        let mut i: usize = 0;
        assert(choices@.take(0) =~= Seq::empty());
        while i < n
            invariant
                i <= n,
                n == choices@.len(),
                total_weight(choices@) <= u128::MAX,
                total == total_weight(choices@.take(i as int)),
                entries@ == cumulative(choices@.take(i as int)),
            decreases n - i,
        {
            let ghost next = choices@.take(i + 1);
            assert(next.drop_last() =~= choices@.take(i as int));
            assert(next.last() == choices@[i as int]);
            proof {
                total_weight_grows(choices@, i + 1);
            }
            let (hid, weight) = choices[i];
            if weight != 0 {
                total = total + weight as u128;
                entries.push((hid, total));
            }
            i += 1;
        }
        assert(choices@.take(i as int) =~= choices@);
        WeightedChoice { entries, total, choices: Ghost(choices@) }
    }

    /// The key that owns `roll`.
    pub fn pick_with(&self, roll: u128) -> (r: Option<u8>)
        requires
            self.wf(),
        ensures
            r == owner(self.choices@, roll as nat),
            r is Some <==> roll < self.total,
    {
        let mut i: usize = 0;
        proof {
            owner_defined(self.choices@, roll as nat);
        }
        while i < self.entries.len()
            invariant
                self.wf(),
                i <= self.entries.len(),
                forall|j: int| 0 <= j < i ==> self.entries@[j].1 <= roll,
            decreases self.entries.len() - i,
        {
            if roll < self.entries[i].1 {
                proof {
                    owner_is_first(self.choices@, roll as nat, i as int);
                }
                return Some(self.entries[i].0);
            }
            i += 1;
        }
        proof {
            owner_is_none(self.choices@, roll as nat);
        }
        None
    }

    /// A random key, with odds in the proportion of the weights; `None` where
    /// no key has a positive weight.
    pub fn pick(&self) -> (r: Option<u8>)
        requires
            self.wf(),
        ensures
            r is None <==> self.total == 0,
            r is Some ==> exists|roll: nat|
                roll < self.total && r == #[trigger] owner(self.choices@, roll),
    {
        if self.total == 0 {
            return None;
        }
        let roll: u128 = random_between(0, self.total - 1);
        self.pick_with(roll)
    }

    /// Whether no key has a positive weight.
    pub fn is_empty(&self) -> (r: bool)
        ensures
            r == (self.total == 0),
    {
        self.total == 0
    }
}

proof fn total_weight_is_at_most(choices: Seq<(u8, u32)>)
    ensures
        total_weight(choices) <= choices.len() * (u32::MAX as nat),
    decreases choices.len(),
{
    if choices.len() > 0 {
        total_weight_is_at_most(choices.drop_last());
        assert(choices.len() * (u32::MAX as nat) == (choices.len() - 1) * (u32::MAX as nat)
            + u32::MAX) by (nonlinear_arith)
            requires
                choices.len() > 0,
        ;
    }
}

proof fn total_weight_fits(choices: Seq<(u8, u32)>)
    requires
        choices.len() <= usize::MAX,
    ensures
        total_weight(choices) <= u128::MAX,
{
    total_weight_is_at_most(choices);
    assert(choices.len() * (u32::MAX as nat) <= u128::MAX) by (nonlinear_arith)
        requires
            choices.len() <= 0xffff_ffff_ffff_ffff,
    ;
}

proof fn total_weight_is_positive(choices: Seq<(u8, u32)>)
    ensures
        total_weight(choices) > 0 <==> exists|i: int|
            0 <= i < choices.len() && (#[trigger] choices[i]).1 > 0,
    decreases choices.len(),
{
    if choices.len() > 0 {
        let before = choices.drop_last();
        total_weight_is_positive(before);
        if total_weight(before) > 0 {
            let i = choose|i: int| 0 <= i < before.len() && (#[trigger] before[i]).1 > 0;
            assert(choices[i] == before[i]);
        }
        if exists|i: int| 0 <= i < choices.len() && (#[trigger] choices[i]).1 > 0 {
            let i = choose|i: int| 0 <= i < choices.len() && (#[trigger] choices[i]).1 > 0;
            if i < before.len() {
                assert(before[i] == choices[i]);
            }
        }
        if choices.last().1 > 0 {
            assert(choices[choices.len() - 1].1 > 0);
        }
    }
}

proof fn total_weight_grows(choices: Seq<(u8, u32)>, n: int)
    requires
        0 <= n <= choices.len(),
    ensures
        total_weight(choices.take(n)) <= total_weight(choices),
    decreases choices.len(),
{
    if n == choices.len() {
        assert(choices.take(n) =~= choices);
    } else {
        total_weight_grows(choices.drop_last(), n);
        assert(choices.drop_last().take(n) =~= choices.take(n));
    }
}

proof fn cumulative_bounds(choices: Seq<(u8, u32)>)
    requires
        total_weight(choices) <= u128::MAX,
    ensures
        forall|j: int|
            0 <= j < cumulative(choices).len() ==> 0 < (#[trigger] cumulative(choices)[j]).1
                <= total_weight(choices),
        total_weight(choices) > 0 ==> cumulative(choices).len() > 0
            && cumulative(choices).last().1 == total_weight(choices),
    decreases choices.len(),
{
    if choices.len() > 0 {
        let c = cumulative(choices.drop_last());
        cumulative_bounds(choices.drop_last());
        assert forall|j: int| 0 <= j < cumulative(choices).len() implies 0 < (
        #[trigger] cumulative(choices)[j]).1 <= total_weight(choices) by {
            if j < c.len() {
                assert(cumulative(choices)[j] == c[j]);
            }
        }
    }
}

proof fn owner_is_first(choices: Seq<(u8, u32)>, roll: nat, i: int)
    requires
        total_weight(choices) <= u128::MAX,
        0 <= i < cumulative(choices).len(),
        roll < cumulative(choices)[i].1,
        forall|j: int| 0 <= j < i ==> (#[trigger] cumulative(choices)[j]).1 <= roll,
    ensures
        owner(choices, roll) == Some(cumulative(choices)[i].0),
    decreases choices.len(),
{
    let before = choices.drop_last();
    cumulative_bounds(choices);
    cumulative_bounds(before);
    let c = cumulative(before);
    if choices.last().1 == 0 {
        assert(cumulative(choices) == c);
        owner_is_first(before, roll, i);
    } else if i < c.len() {
        assert(cumulative(choices)[i] == c[i]);
        assert forall|j: int| 0 <= j < i implies (#[trigger] c[j]).1 <= roll by {
            assert(cumulative(choices)[j] == c[j]);
        }
        owner_is_first(before, roll, i);
    } else {
        assert(i == c.len());
        if total_weight(before) > 0 {
            assert(cumulative(choices)[c.len() - 1] == c.last());
        }
    }
}

proof fn owner_defined(choices: Seq<(u8, u32)>, roll: nat)
    ensures
        owner(choices, roll) is Some <==> roll < total_weight(choices),
    decreases choices.len(),
{
    if choices.len() > 0 {
        owner_defined(choices.drop_last(), roll);
    }
}

proof fn owner_is_none(choices: Seq<(u8, u32)>, roll: nat)
    requires
        total_weight(choices) <= u128::MAX,
        forall|j: int|
            0 <= j < cumulative(choices).len() ==> (#[trigger] cumulative(choices)[j]).1 <= roll,
    ensures
        owner(choices, roll) is None,
{
    cumulative_bounds(choices);
    owner_defined(choices, roll);
    if total_weight(choices) > 0 {
        assert(cumulative(choices)[cumulative(choices).len() - 1].1 == total_weight(choices));
    }
}

/// A choice owns exactly as many rolls as its weight: those from the weight of
/// the choices before it on. So each choice comes with odds in the proportion
/// of its weight, and one of weight 0 never comes.
pub proof fn odds_follow_weights(choices: Seq<(u8, u32)>, i: int, roll: nat)
    requires
        0 <= i < choices.len(),
        total_weight(choices.take(i)) <= roll < total_weight(choices.take(i)) + choices[i].1,
    ensures
        owner(choices, roll) == Some(choices[i].0),
        roll < total_weight(choices),
    decreases choices.len(),
{
    let before = choices.drop_last();
    if i == choices.len() - 1 {
        assert(choices.take(i) =~= before);
    } else {
        assert(before.take(i) =~= choices.take(i));
        odds_follow_weights(before, i, roll);
    }
}

/// The weight of choices is the sum of theirs: that of one is its own, and that of two lists is
/// that of the first and that of the second together.
pub proof fn weights_add_up(a: Seq<(u8, u32)>, b: Seq<(u8, u32)>, c: (u8, u32))
    ensures
        total_weight(Seq::empty()) == 0,
        total_weight(seq![c]) == c.1,
        total_weight(a + b) == total_weight(a) + total_weight(b),
    decreases b.len(),
{
    reveal_with_fuel(total_weight, 2);
    assert(seq![c].drop_last() =~= Seq::<(u8, u32)>::empty());
    assert(seq![c].last() == c);
    if b.len() == 0 {
        assert(a + b =~= a);
    } else {
        weights_add_up(a, b.drop_last(), c);
        assert((a + b).drop_last() =~= a + b.drop_last());
        assert((a + b).last() == b.last());
    }
}

/// A key of weight zero is never chosen, and no roll beyond the weight of all chooses one.
pub proof fn only_weight_is_chosen(choices: Seq<(u8, u32)>, roll: nat)
    ensures
        roll >= total_weight(choices) ==> owner(choices, roll) is None,
        owner(choices, roll) matches Some(k) ==> exists|i: int|
            0 <= i < choices.len() && (#[trigger] choices[i]).0 == k && choices[i].1 > 0,
    decreases choices.len(),
{
    if choices.len() > 0 {
        let before = choices.drop_last();
        only_weight_is_chosen(before, roll);
        if let Some(k) = owner(choices, roll) {
            if roll >= total_weight(before) {
                assert(choices[choices.len() - 1].0 == k);
            } else {
                let i = choose|i: int|
                    0 <= i < before.len() && (#[trigger] before[i]).0 == k && before[i].1 > 0;
                assert(choices[i].0 == k);
            }
        }
    }
}

} // verus!
