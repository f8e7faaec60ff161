//! A hard cap on actions per second, over a sliding window.

use std::collections::VecDeque;
use vstd::prelude::*;
use vstd::std_specs::vecdeque::*;
use crate::units::{Nanos, NANOS_PER_SEC};

verus! {

/// The oldest moment that still counts at `now`: one second before it, or
/// `now` itself within the first second of the clock.
pub open spec fn cutoff(now: Nanos) -> Nanos {
    if now >= NANOS_PER_SEC {
        (now - NANOS_PER_SEC) as u64
    } else {
        now
    }
}

/// What is left of a window once its leading entries before `cut` are gone.
pub open spec fn expire(window: Seq<Nanos>, cut: Nanos) -> Seq<Nanos>
    decreases window.len(),
{
    if window.len() == 0 || window[0] >= cut {
        window
    } else {
        expire(window.drop_first(), cut)
    }
}

/// Grants at most `max_per_sec` slots in any second; what exceeds that is
/// dropped, not queued.
pub struct RateLimiter {
    pub name: String,
    pub max_per_sec: u32,
    pub window: VecDeque<Nanos>,
    pub dropped: u64,
}

impl RateLimiter {
    /// No more slots are taken than the cap allows.
    pub open spec fn wf(self) -> bool {
        self.window@.len() <= self.max_per_sec
    }

    /// The entries of the window that still count at `now`.
    pub open spec fn live(self, now: Nanos) -> Seq<Nanos> {
        expire(self.window@, cutoff(now))
    }

    /// A slot is free at `now`.
    pub open spec fn has_room(self, now: Nanos) -> bool {
        self.live(now).len() < self.max_per_sec
    }

    /// A limiter that has granted nothing yet.
    pub fn new(name: &str, max_per_sec: u32) -> (r: Self)
        ensures
            r.wf(),
            r.name@ == name@,
            r.max_per_sec == max_per_sec,
            r.window@ == Seq::<Nanos>::empty(),
            r.dropped == 0,
    {
        RateLimiter { name: name.to_owned(), max_per_sec, window: VecDeque::new(), dropped: 0 }
    }

    /// Takes a slot at `now` if one is free, and counts the request as dropped
    /// if none is.
    pub fn allow(&mut self, now: Nanos) -> (granted: bool)
        requires
            old(self).wf(),
        ensures
            final(self).wf(),
            final(self).name == old(self).name,
            final(self).max_per_sec == old(self).max_per_sec,
            granted == old(self).has_room(now),
            granted ==> final(self).window@ == old(self).live(now).push(now) && final(self).dropped
                == old(self).dropped,
            !granted ==> final(self).window@ == old(self).live(now) && final(self).dropped == if old(
                self,
            ).dropped == u64::MAX {
                u64::MAX
            } else {
                (old(self).dropped + 1) as u64
            },
    {
        let cut: u64 = if now >= NANOS_PER_SEC {
            now - NANOS_PER_SEC
        } else {
            now
        };
        while self.window.len() > 0 && self.window[0] < cut
            invariant
                self.name == old(self).name,
                self.max_per_sec == old(self).max_per_sec,
                self.dropped == old(self).dropped,
                self.window@.len() <= self.max_per_sec,
                cut == cutoff(now),
                expire(self.window@, cut) == old(self).live(now),
            decreases self.window@.len(),
        {
            let ghost before = self.window@;
            let _ = self.window.pop_front();
            assert(self.window@ =~= before.drop_first());
        }
        assert(self.window@ == old(self).live(now));
        if self.window.len() < self.max_per_sec as usize {
            self.window.push_back(now);
            true
        } else {
            self.dropped = self.dropped.saturating_add(1);
            false
        }
    }

    /// How many requests were dropped.
    pub fn dropped_count(&self) -> (r: u64)
        ensures
            r == self.dropped,
    {
        self.dropped
    }

    /// How many slots are taken.
    pub fn current_rate(&self) -> (r: usize)
        ensures
            r == self.window@.len(),
    {
        self.window.len()
    }
}

/// The limiter's window after requests at the given moments, in order.
pub open spec fn window_after(max: nat, times: Seq<Nanos>) -> Seq<Nanos>
    decreases times.len(),
{
    if times.len() == 0 {
        Seq::empty()
    } else {
        let live = expire(window_after(max, times.drop_last()), cutoff(times.last()));
        if live.len() < max {
            live.push(times.last())
        } else {
            live
        }
    }
}

/// The moments, among those given, at which a request was granted.
pub open spec fn granted(max: nat, times: Seq<Nanos>) -> Seq<Nanos>
    decreases times.len(),
{
    if times.len() == 0 {
        Seq::empty()
    } else {
        let live = expire(window_after(max, times.drop_last()), cutoff(times.last()));
        if live.len() < max {
            granted(max, times.drop_last()).push(times.last())
        } else {
            granted(max, times.drop_last())
        }
    }
}

/// The moments never go back.
pub open spec fn ordered(times: Seq<Nanos>) -> bool {
    forall|i: int, j: int| 0 <= i <= j < times.len() ==> times[i] <= times[j]
}

/// The trailing moments of `times` that are no earlier than `from`.
pub open spec fn tail_since(times: Seq<Nanos>, from: Nanos) -> Seq<Nanos> {
    expire(times, from)
}

proof fn expire_is_suffix(w: Seq<Nanos>, cut: Nanos)
    ensures
        expire(w, cut).len() <= w.len(),
        expire(w, cut) == w.skip(w.len() - expire(w, cut).len()),
        forall|i: int| 0 <= i < w.len() - expire(w, cut).len() ==> w[i] < cut,
        expire(w, cut).len() > 0 ==> expire(w, cut)[0] >= cut,
    decreases w.len(),
{
    if w.len() == 0 || w[0] >= cut {
        assert(w.skip(0) =~= w);
    } else {
        let rest = w.drop_first();
        expire_is_suffix(rest, cut);
        let n = rest.len() - expire(rest, cut).len();
        assert(rest.skip(n) =~= w.skip(n + 1));
        assert forall|i: int| 0 <= i < n + 1 implies w[i] < cut by {
            if i > 0 {
                assert(rest[i - 1] == w[i]);
            }
        }
    }
}

/// A request that is recent enough stays, whatever expires before it.
pub proof fn expire_push(w: Seq<Nanos>, cut: Nanos, t: Nanos)
    requires
        t >= cut,
    ensures
        expire(w.push(t), cut) == expire(w, cut).push(t),
    decreases w.len(),
{
    if w.len() == 0 {
        assert(w.push(t)[0] == t);
    } else if w[0] >= cut {
        assert(w.push(t)[0] == w[0]);
    } else {
        assert(w.push(t)[0] == w[0]);
        assert(w.push(t).drop_first() =~= w.drop_first().push(t));
        expire_push(w.drop_first(), cut, t);
    }
}

/// What an earlier cut takes away, a later one takes away too.
pub proof fn expire_twice(w: Seq<Nanos>, c1: Nanos, c2: Nanos)
    requires
        c1 <= c2,
    ensures
        expire(expire(w, c1), c2) == expire(w, c2),
    decreases w.len(),
{
    if w.len() > 0 && w[0] < c1 {
        expire_twice(w.drop_first(), c1, c2);
    }
}

proof fn window_is_tail(max: nat, times: Seq<Nanos>)
    requires
        ordered(times),
        times.len() > 0,
        times[0] >= NANOS_PER_SEC,
    ensures
        window_after(max, times) == expire(granted(max, times), cutoff(times.last())),
    decreases times.len(),
{
    let now = times.last();
    let before = times.drop_last();
    let cut = cutoff(now);
    let g = granted(max, before);
    assert(cut <= now);
    if before.len() == 0 {
        assert(window_after(max, before) =~= Seq::empty());
        assert(g =~= Seq::empty());
        assert(expire(g, cut) =~= Seq::empty());
    } else {
        assert(ordered(before));
        window_is_tail(max, before);
        let last = before.last();
        assert(last == times[times.len() - 2]);
        assert(last <= now);
        assert(last >= NANOS_PER_SEC) by {
            assert(times[0] <= last);
        }
        expire_twice(g, cutoff(last), cut);
    }
    let live = expire(window_after(max, before), cut);
    assert(live == expire(g, cut));
    if live.len() < max {
        expire_push(g, cut, now);
    }
}

/// Over any run of requests on a clock that does not go back and is past its
/// first second, the requests granted within the second that ends at the latest
/// request number at most the cap.
pub proof fn at_most_max_per_second(max: nat, times: Seq<Nanos>)
    requires
        ordered(times),
        times.len() > 0,
        times[0] >= NANOS_PER_SEC,
    ensures
        tail_since(granted(max, times), cutoff(times.last())).len() <= max,
{
    window_is_tail(max, times);
    window_fits(max, times);
}

proof fn window_fits(max: nat, times: Seq<Nanos>)
    ensures
        window_after(max, times).len() <= max,
    decreases times.len(),
{
    if times.len() > 0 {
        window_fits(max, times.drop_last());
        expire_is_suffix(window_after(max, times.drop_last()), cutoff(times.last()));
    }
}

/// Whether limiters follow from each other by one request at each of the given moments, with these
/// answers, the first of them having granted nothing yet.
pub open spec fn is_run(
    limiters: Seq<RateLimiter>,
    times: Seq<Nanos>,
    answers: Seq<bool>,
) -> bool {
    &&& limiters.len() == times.len() + 1
    &&& answers.len() == times.len()
    &&& limiters[0].window@ == Seq::<Nanos>::empty()
    &&& forall|i: int|
        #![trigger times[i]]
        0 <= i < times.len() ==> {
            let before = limiters[i];
            let after = limiters[i + 1];
            &&& answers[i] == before.has_room(times[i])
            &&& after.max_per_sec == before.max_per_sec
            &&& after.window@ == if answers[i] {
                before.live(times[i]).push(times[i])
            } else {
                before.live(times[i])
            }
        }
}

/// How many of the requests between two moments, both included, were granted.
pub open spec fn granted_between(
    times: Seq<Nanos>,
    answers: Seq<bool>,
    from: int,
    to: int,
) -> nat
    decreases times.len(),
{
    if times.len() == 0 {
        0
    } else {
        granted_between(times.drop_last(), answers.drop_last(), from, to) + if answers.last()
            && from <= times.last() <= to {
            1nat
        } else {
            0
        }
    }
}

/// How many moments lie between two others, both included.
spec fn count_between(times: Seq<Nanos>, from: int, to: int) -> nat
    decreases times.len(),
{
    if times.len() == 0 {
        0
    } else {
        count_between(times.drop_last(), from, to) + if from <= times.last() <= to {
            1nat
        } else {
            0
        }
    }
}

/// Where the first `n` moments are too early, at most the others lie between.
proof fn count_skips_the_early(times: Seq<Nanos>, n: int, from: int, to: int)
    requires
        0 <= n <= times.len(),
        forall|i: int| 0 <= i < n ==> times[i] < from,
    ensures
        count_between(times, from, to) <= times.len() - n,
    decreases times.len(),
{
    if times.len() > 0 {
        let before = times.drop_last();
        if n == times.len() {
            assert(times[n - 1] < from);
            assert forall|i: int| 0 <= i < n - 1 implies before[i] < from by {
                assert(times[i] < from);
            }
            count_skips_the_early(before, n - 1, from, to);
        } else {
            assert forall|i: int| 0 <= i < n implies before[i] < from by {
                assert(times[i] < from);
            }
            count_skips_the_early(before, n, from, to);
        }
    }
}

/// What the limiters of a run hold and grant is what the moments alone say.
proof fn run_follows_the_moments(
    limiters: Seq<RateLimiter>,
    times: Seq<Nanos>,
    answers: Seq<bool>,
    from: int,
    to: int,
)
    requires
        is_run(limiters, times, answers),
    ensures
        limiters.last().window@ == window_after(limiters[0].max_per_sec as nat, times),
        limiters.last().max_per_sec == limiters[0].max_per_sec,
        granted_between(times, answers, from, to) == count_between(
            granted(limiters[0].max_per_sec as nat, times),
            from,
            to,
        ),
    decreases times.len(),
{
    let max = limiters[0].max_per_sec as nat;
    if times.len() > 0 {
        let n = times.len() - 1;
        let fewer = limiters.drop_last();
        let before = times.drop_last();
        let said = answers.drop_last();
        assert(is_run(fewer, before, said)) by {
            assert forall|i: int| #![trigger before[i]] 0 <= i < before.len() implies {
                let a = fewer[i];
                let b = fewer[i + 1];
                &&& said[i] == a.has_room(before[i])
                &&& b.max_per_sec == a.max_per_sec
                &&& b.window@ == if said[i] {
                    a.live(before[i]).push(before[i])
                } else {
                    a.live(before[i])
                }
            } by {
                assert(times[i] == before[i]);
            }
        }
        run_follows_the_moments(fewer, before, said, from, to);
        assert(times[n] == times.last());
        assert(fewer.last() == limiters[n]);
        let g = granted(max, before);
        if answers.last() {
            assert(g.push(times.last()).drop_last() =~= g);
        }
    }
}

proof fn interval_fits_the_cap(max: nat, times: Seq<Nanos>, from: int)
    requires
        ordered(times),
        times.len() > 0 ==> times[0] >= NANOS_PER_SEC,
    ensures
        count_between(granted(max, times), from, from + NANOS_PER_SEC) <= max,
    decreases times.len(),
{
    let to = from + NANOS_PER_SEC;
    if times.len() > 0 {
        let now = times.last();
        let before = times.drop_last();
        let g = granted(max, before);
        let cut = cutoff(now);
        assert(ordered(before));
        assert(now >= times[0]);
        if before.len() > 0 {
            assert(before[0] == times[0]);
        }
        interval_fits_the_cap(max, before, from);
        let live = expire(window_after(max, before), cut);
        if live.len() < max {
            assert(g.push(now).drop_last() =~= g);
            if from <= now <= to {
                if before.len() > 0 {
                    window_is_tail(max, before);
                    assert(before.last() == times[times.len() - 2]);
                    assert(before.last() >= times[0]);
                    expire_twice(g, cutoff(before.last()), cut);
                } else {
                    assert(g =~= Seq::empty());
                    assert(window_after(max, before) =~= Seq::empty());
                }
                assert(live == expire(g, cut));
                expire_is_suffix(g, cut);
                let early = g.len() - live.len();
                assert forall|i: int| 0 <= i < early implies g[i] < from by {
                    assert(g[i] < cut);
                }
                count_skips_the_early(g, early, from, to);
            }
        }
    }
}

/// Over any run of requests on a clock that does not go back and is past its first second, at most
/// as many requests as the cap are granted in every closed interval of one second, and no limiter
/// ever holds more slots than that.
pub proof fn every_second_fits_the_cap(
    limiters: Seq<RateLimiter>,
    times: Seq<Nanos>,
    answers: Seq<bool>,
    from: int,
)
    requires
        is_run(limiters, times, answers),
        ordered(times),
        times.len() > 0 ==> times[0] >= NANOS_PER_SEC,
    ensures
        granted_between(times, answers, from, from + NANOS_PER_SEC) <= limiters[0].max_per_sec,
        limiters.last().window@.len() <= limiters[0].max_per_sec,
{
    let max = limiters[0].max_per_sec as nat;
    run_follows_the_moments(limiters, times, answers, from, from + NANOS_PER_SEC);
    interval_fits_the_cap(max, times, from);
    window_fits(max, times);
}

/// From the first second on, the slots that count at a moment are those that were taken no longer
/// than a second before it, whatever else the window still holds.
pub proof fn a_slot_counts_for_a_second(l: RateLimiter, now: Nanos, i: int)
    requires
        ordered(l.window@),
        now >= 1_000_000_000,
        0 <= i < l.window@.len(),
    ensures
        (i >= l.window@.len() - l.live(now).len()) == (l.window@[i] + 1_000_000_000 >= now),
        l.live(now) == l.window@.skip(l.window@.len() - l.live(now).len()),
{
    let w = l.window@;
    expire_is_suffix(w, cutoff(now));
    let k = w.len() - l.live(now).len();
    if i >= k {
        assert(l.live(now)[0] == w[k]);
        assert(w[k] <= w[i]);
    }
}

/// A slot is free exactly while fewer count than the cap: of a window in order, the one that would
/// be the cap's oldest is more than a second old.
pub proof fn a_slot_is_free_below_the_cap(l: RateLimiter, now: Nanos)
    requires
        ordered(l.window@),
        now >= 1_000_000_000,
        l.max_per_sec > 0,
        l.wf(),
    ensures
        l.window@.len() < l.max_per_sec ==> l.has_room(now),
        l.window@.len() == l.max_per_sec ==> l.has_room(now) == (l.window@[0] + 1_000_000_000
            < now),
{
    expire_is_suffix(l.window@, cutoff(now));
    if l.window@.len() == l.max_per_sec {
        a_slot_counts_for_a_second(l, now, 0);
    }
}

/// In the first second of the clock only slots of the same moment, or of a later one, count.
pub proof fn slots_of_the_first_second(l: RateLimiter, now: Nanos, i: int)
    requires
        ordered(l.window@),
        now < 1_000_000_000,
        0 <= i < l.window@.len(),
    ensures
        (i >= l.window@.len() - l.live(now).len()) == (l.window@[i] >= now),
{
    let w = l.window@;
    expire_is_suffix(w, cutoff(now));
    let k = w.len() - l.live(now).len();
    if i >= k {
        assert(l.live(now)[0] == w[k]);
        assert(w[k] <= w[i]);
    }
}

} // verus!
