//! Looting after kills.

use std::collections::VecDeque;
use vstd::prelude::*;
use vstd::std_specs::vecdeque::*;

verus! {

/// How many ticks of sparkle readings are remembered: long enough for the
/// pulse of a sparkle to show.
pub const SPARKLES_WINDOW_SIZE: usize = 120;

/// Ticks between two presses of the loot key.
pub const LOOT_COOLDOWN_TICKS: u64 = 90;

/// The largest number of a sequence; 0 where it is empty.
pub open spec fn largest(s: Seq<u32>) -> u32
    decreases s.len(),
{
    if s.len() == 0 {
        0
    } else if s.last() > largest(s.drop_last()) {
        s.last()
    } else {
        largest(s.drop_last())
    }
}

/// The largest number of a sequence is no less than any of its numbers, and is
/// one of them unless the sequence is empty.
pub proof fn largest_is_maximum(s: Seq<u32>)
    ensures
        forall|i: int| 0 <= i < s.len() ==> #[trigger] s[i] <= largest(s),
        s.len() > 0 ==> s.contains(largest(s)),
    decreases s.len(),
{
    if s.len() > 0 {
        let before = s.drop_last();
        largest_is_maximum(before);
        assert forall|i: int| 0 <= i < s.len() implies #[trigger] s[i] <= largest(s) by {
            if i < before.len() {
                assert(before[i] == s[i]);
            }
        }
        if s.last() > largest(before) {
            assert(s[s.len() - 1] == largest(s));
        } else if before.len() > 0 {
            let i = choose|i: int| 0 <= i < before.len() && before[i] == largest(before);
            assert(s[i] == largest(s));
        } else {
            assert(s[0] == 0);
        }
    }
}

/// Kills that wait to be looted, and the recent sparkle readings.
pub struct LootTracker {
    /// The tick from which the loot key may be pressed again.
    pub next_tick: u64,
    /// Kills that were not looted yet.
    pub kills_pending: u32,
    pub prev_enemy_count: u32,
    /// The latest sparkle readings, oldest first.
    pub sparkles: VecDeque<u32>,
}

/// Kills that the change of the enemy count shows.
pub open spec fn drop_seen(before: u32, now: u32) -> int {
    if now < before {
        before - now
    } else {
        0
    }
}

/// The readings after a new one: the oldest gives way once the window is full.
pub open spec fn window_with(window: Seq<u32>, reading: u32) -> Seq<u32> {
    if window.len() >= SPARKLES_WINDOW_SIZE {
        window.push(reading).drop_first()
    } else {
        window.push(reading)
    }
}

/// Pending kills after a tick that shows some more.
pub open spec fn pending_with(pending: u32, more: int) -> u32 {
    if pending + more > u32::MAX {
        u32::MAX
    } else {
        (pending + more) as u32
    }
}

/// Whether `next` is `now` after it took in the readings of a tick.
pub open spec fn observed(
    now: LootTracker,
    sparkles: u32,
    enemy_count: u32,
    next: LootTracker,
) -> bool {
    &&& next.next_tick == now.next_tick
    &&& next.sparkles@ == window_with(now.sparkles@, sparkles)
    &&& next.kills_pending == pending_with(
        now.kills_pending,
        drop_seen(now.prev_enemy_count, enemy_count),
    )
    &&& next.prev_enemy_count == enemy_count
}

impl LootTracker {
    /// No more readings are kept than the window holds.
    pub open spec fn wf(self) -> bool {
        self.sparkles@.len() <= SPARKLES_WINDOW_SIZE
    }

    /// Loot is to be taken on this tick: some was in sight lately, a kill
    /// waits, and the key may be pressed again.
    pub open spec fn due(self, tick: u64, threshold: u32) -> bool {
        &&& largest(self.sparkles@) >= threshold
        &&& self.kills_pending > 0
        &&& tick >= self.next_tick
    }

    /// Nothing waits.
    pub fn new() -> (r: Self)
        ensures
            r.wf(),
            r.next_tick == 0,
            r.kills_pending == 0,
            r.prev_enemy_count == 0,
            r.sparkles@ == Seq::<u32>::empty(),
    {
        LootTracker { next_tick: 0, kills_pending: 0, prev_enemy_count: 0, sparkles: VecDeque::new() }
    }

    /// Takes in the readings of a tick.
    pub fn observe(&mut self, sparkles: u32, enemy_count: u32)
        requires
            old(self).wf(),
        ensures
            final(self).wf(),
            final(self).next_tick == old(self).next_tick,
            final(self).sparkles@ == window_with(old(self).sparkles@, sparkles),
            final(self).kills_pending == pending_with(
                old(self).kills_pending,
                drop_seen(old(self).prev_enemy_count, enemy_count),
            ),
            final(self).prev_enemy_count == enemy_count,
            observed(*old(self), sparkles, enemy_count, *final(self)),
    {
        self.sparkles.push_back(sparkles);
        if self.sparkles.len() > SPARKLES_WINDOW_SIZE {
            let _ = self.sparkles.pop_front();
        }
        assert(self.sparkles@ =~= window_with(old(self).sparkles@, sparkles));
        if enemy_count < self.prev_enemy_count {
            let kills: u32 = self.prev_enemy_count - enemy_count;
            self.kills_pending = self.kills_pending.saturating_add(kills);
        }
        self.prev_enemy_count = enemy_count;
    }

    /// Whether loot is to be taken on this tick.
    pub fn is_due(&self, tick: u64, threshold: u32) -> (r: bool)
        ensures
            r == self.due(tick, threshold),
    {
        let mut max: u32 = 0;
        let mut i: usize = 0;
        assert(self.sparkles@.take(0) =~= Seq::empty());
        while i < self.sparkles.len()
            invariant
                i <= self.sparkles@.len(),
                max == largest(self.sparkles@.take(i as int)),
            decreases self.sparkles@.len() - i,
        {
            let ghost next = self.sparkles@.take(i + 1);
            assert(next.drop_last() =~= self.sparkles@.take(i as int));
            assert(next.last() == self.sparkles@[i as int]);
            let s: u32 = self.sparkles[i];
            if s > max {
                max = s;
            }
            i += 1;
        }
        assert(self.sparkles@.take(i as int) =~= self.sparkles@);
        max >= threshold && self.kills_pending > 0 && tick >= self.next_tick
    }

    /// Counts a press of the loot key.
    pub fn pressed(&mut self, tick: u64)
        requires
            tick + LOOT_COOLDOWN_TICKS <= u64::MAX,
        ensures
            final(self).kills_pending == if old(self).kills_pending == 0 {
                0
            } else {
                (old(self).kills_pending - 1) as u32
            },
            final(self).next_tick == tick + LOOT_COOLDOWN_TICKS,
            final(self).next_tick == tick + 90,
            final(self).kills_pending <= old(self).kills_pending,
            old(self).kills_pending > 0 ==> final(self).kills_pending < old(self).kills_pending,
            final(self).prev_enemy_count == old(self).prev_enemy_count,
            final(self).sparkles == old(self).sparkles,
    {
        self.kills_pending = self.kills_pending.saturating_sub(1);
        self.next_tick = tick + LOOT_COOLDOWN_TICKS;
    }
}

/// Kills seen over a run of enemy counts.
pub open spec fn kills_over(start: u32, counts: Seq<u32>) -> int
    decreases counts.len(),
{
    if counts.len() == 0 {
        0
    } else {
        kills_over(start, counts.drop_last()) + drop_seen(
            if counts.len() == 1 { start } else { counts[counts.len() - 2] },
            counts.last(),
        )
    }
}

/// Pending kills after a run of ticks; `presses[i]` says whether the loot key
/// was pressed on tick `i`.
pub open spec fn pending_after(start: u32, counts: Seq<u32>, presses: Seq<bool>) -> u32
    decreases counts.len(),
{
    if counts.len() == 0 {
        0
    } else {
        let seen = pending_with(
            pending_after(start, counts.drop_last(), presses.drop_last()),
            drop_seen(if counts.len() == 1 { start } else { counts[counts.len() - 2] }, counts.last()),
        );
        if presses.last() && seen > 0 {
            (seen - 1) as u32
        } else {
            seen
        }
    }
}

/// How often the loot key was pressed.
pub open spec fn press_count(presses: Seq<bool>) -> int
    decreases presses.len(),
{
    if presses.len() == 0 {
        0
    } else {
        press_count(presses.drop_last()) + if presses.last() { 1int } else { 0 }
    }
}

/// The key is pressed only while a kill waits.
pub open spec fn presses_are_due(start: u32, counts: Seq<u32>, presses: Seq<bool>) -> bool
    decreases counts.len(),
{
    counts.len() > 0 ==> {
        &&& presses_are_due(start, counts.drop_last(), presses.drop_last())
        &&& presses.last() ==> pending_with(
            pending_after(start, counts.drop_last(), presses.drop_last()),
            drop_seen(if counts.len() == 1 { start } else { counts[counts.len() - 2] }, counts.last()),
        ) > 0
    }
}

/// The loot key is pressed at most once per kill: over any run the presses and
/// the kills that still wait together never exceed the kills seen.
pub proof fn at_most_one_press_per_kill(start: u32, counts: Seq<u32>, presses: Seq<bool>)
    requires
        counts.len() == presses.len(),
        presses_are_due(start, counts, presses),
    ensures
        press_count(presses) + pending_after(start, counts, presses) <= kills_over(start, counts),
    decreases counts.len(),
{
    if counts.len() > 0 {
        at_most_one_press_per_kill(start, counts.drop_last(), presses.drop_last());
    }
}

/// Enemies that leave the battle list are kills to loot, as many as left, up to the largest number;
/// enemies that come or stay are none.
pub proof fn enemies_that_leave_are_kills(
    now: LootTracker,
    sparkles: u32,
    enemy_count: u32,
    next: LootTracker,
)
    requires
        observed(now, sparkles, enemy_count, next),
    ensures
        enemy_count >= now.prev_enemy_count ==> next.kills_pending == now.kills_pending,
        enemy_count < now.prev_enemy_count && now.kills_pending + (now.prev_enemy_count
            - enemy_count) <= u32::MAX ==> next.kills_pending == now.kills_pending + (
        now.prev_enemy_count - enemy_count),
        enemy_count < now.prev_enemy_count && now.kills_pending + (now.prev_enemy_count
            - enemy_count) > u32::MAX ==> next.kills_pending == u32::MAX,
        next.prev_enemy_count == enemy_count,
        next.next_tick == now.next_tick,
{
}

/// Whether each state of a run is the one before after it took in a tick's readings: the sparkles
/// and the enemy count.
pub open spec fn is_run(states: Seq<LootTracker>, readings: Seq<(u32, u32)>) -> bool {
    &&& states.len() == readings.len() + 1
    &&& forall|i: int|
        #![trigger readings[i]]
        0 <= i < readings.len() ==> observed(
            states[i],
            readings[i].0,
            readings[i].1,
            states[i + 1],
        )
}

/// Over a run in which the enemy count never falls, loot is never due, whatever sparkles.
pub proof fn no_loot_without_a_fall(
    states: Seq<LootTracker>,
    readings: Seq<(u32, u32)>,
    k: int,
    tick: u64,
    threshold: u32,
)
    requires
        is_run(states, readings),
        states[0].kills_pending == 0,
        forall|i: int| 0 <= i < readings.len() ==> states[i].prev_enemy_count <= (
        #[trigger] readings[i]).1,
        0 <= k < states.len(),
    ensures
        states[k].kills_pending == 0,
        !states[k].due(tick, threshold),
    decreases k,
{
    if k > 0 {
        no_loot_without_a_fall(states, readings, k - 1, tick, threshold);
        assert(observed(states[k - 1], readings[k - 1].0, readings[k - 1].1, states[k]));
        assert(states[k - 1].prev_enemy_count <= readings[k - 1].1);
    }
}

/// Loot is due exactly while a kill waits, from the tick on which the key may be pressed again, and
/// while one of the remembered readings is as high as the threshold.
pub proof fn loot_is_due_by_its_sparkles(t: LootTracker, tick: u64, threshold: u32)
    requires
        threshold > 0,
    ensures
        t.due(tick, threshold) == (t.kills_pending > 0 && tick >= t.next_tick && exists|i: int|
            0 <= i < t.sparkles@.len() && #[trigger] t.sparkles@[i] >= threshold),
{
    let s = t.sparkles@;
    largest_is_maximum(s);
    if largest(s) >= threshold {
        let i = choose|i: int| 0 <= i < s.len() && s[i] == largest(s);
        assert(s[i] >= threshold);
    }
}

/// The readings that are remembered are the latest ones, in order, four seconds of thirty ticks
/// long.
pub proof fn the_latest_readings_are_remembered(
    states: Seq<LootTracker>,
    readings: Seq<(u32, u32)>,
    k: int,
)
    requires
        is_run(states, readings),
        states[0].sparkles@.len() <= 120,
        0 <= k < states.len(),
    ensures
        states[k].sparkles@ == ({
            let all = states[0].sparkles@ + Seq::new(k as nat, |i: int| readings[i].0);
            if all.len() <= 120 {
                all
            } else {
                all.skip(all.len() - 120)
            }
        }),
    decreases k,
{
    let all = states[0].sparkles@ + Seq::new(k as nat, |i: int| readings[i].0);
    if k > 0 {
        the_latest_readings_are_remembered(states, readings, k - 1);
        let before = states[0].sparkles@ + Seq::new((k - 1) as nat, |i: int| readings[i].0);
        assert(observed(states[k - 1], readings[k - 1].0, readings[k - 1].1, states[k]));
        assert(all =~= before.push(readings[k - 1].0));
        if all.len() <= 120 {
            assert(states[k].sparkles@ =~= all);
        } else {
            assert(states[k].sparkles@ =~= all.skip(all.len() - 120));
        }
    } else {
        assert(all =~= states[0].sparkles@);
    }
}

} // verus!
