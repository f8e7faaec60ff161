//! Pacing of ticks and the watchdog for missing frames.

use vstd::prelude::*;
use crate::units::Nanos;

verus! {

/// Ticks in a row without a frame after which the bot pauses: four seconds at
/// thirty ticks per second.
pub const NO_FRAME_PAUSE_TICKS: u32 = 120;

/// How many commands a tick takes from the queue. One is enough: the others wait for the ticks that
/// follow, and no tick is held up by them.
pub const COMMANDS_PER_TICK: usize = 1;

/// Whether a tick that has taken so many commands takes another.
pub fn takes_command(taken: usize) -> (r: bool)
    ensures
        r == (taken < COMMANDS_PER_TICK),
        r == (taken == 0),
{
    taken < COMMANDS_PER_TICK
}

/// How long to sleep, and the deadline that the next tick counts from.
///
/// Deadlines advance by one budget per tick, so that delays within the budget
/// do not add up. A tick that overran its deadline sets it to `now`, so that
/// lost time is not caught up on.
pub fn compute_tick_sleep(next_tick: Nanos, tick_budget: Nanos, now: Nanos) -> (r: (Nanos, Nanos))
    requires
        next_tick + tick_budget <= u64::MAX,
    ensures
        next_tick + tick_budget > now ==> r.0 == next_tick + tick_budget - now && r.1 == next_tick
            + tick_budget,
        next_tick + tick_budget <= now ==> r == (0u64, now),
        r.1 >= now,
        r.1 >= next_tick + tick_budget,
        r.1 == now || r.1 == next_tick + tick_budget,
        r.0 + now == r.1,
        r.1 == deadline_after(next_tick as int, tick_budget as int, seq![now as int]),
{
    assert(seq![now as int].drop_last() =~= Seq::<int>::empty());
    assert(deadline_after(next_tick as int, tick_budget as int, Seq::<int>::empty()) == next_tick);
    let deadline: Nanos = next_tick + tick_budget;
    if deadline > now {
        (deadline - now, deadline)
    } else {
        (0, now)
    }
}

/// Deadlines after a run of ticks that end at the given moments.
pub open spec fn deadline_after(start: int, budget: int, ends: Seq<int>) -> int
    decreases ends.len(),
{
    if ends.len() == 0 {
        start
    } else {
        let d = deadline_after(start, budget, ends.drop_last()) + budget;
        if d > ends.last() {
            d
        } else {
            ends.last()
        }
    }
}

/// As long as every tick ends before its deadline, the deadline after `n` ticks
/// is exactly `n` budgets after the start: no drift.
pub proof fn no_drift(start: int, budget: int, ends: Seq<int>)
    requires
        forall|i: int|
            0 <= i < ends.len() ==> #[trigger] ends[i] < start + (i + 1) * budget,
    ensures
        deadline_after(start, budget, ends) == start + ends.len() * budget,
    decreases ends.len(),
{
    if ends.len() == 0 {
        assert(0 * budget == 0);
    } else {
        let n = ends.len() as int;
        no_drift(start, budget, ends.drop_last());
        assert((n - 1) * budget + budget == n * budget) by (nonlinear_arith);
        assert(ends[n - 1] < start + (n - 1 + 1) * budget);
    }
}

/// A deadline never lies more than one budget after the end of its tick, or it
/// follows the previous deadline by one budget: lost time is dropped.
pub proof fn no_catching_up(previous: int, budget: int, end: int)
    requires
        previous + budget <= end,
    ensures
        deadline_after(previous, budget, seq![end]) == end,
{
    assert(seq![end].drop_last() =~= Seq::<int>::empty());
    assert(deadline_after(previous, budget, Seq::<int>::empty()) == previous);
}

/// What the watchdog says of a tick.
#[derive(Clone, Copy, Debug, PartialEq, Eq, Structural)]
pub enum NoFrameStep {
    /// There was a frame.
    FrameOk,
    /// There was none, but not for long enough to pause.
    Accumulating,
    /// There was none for too long: the bot is to pause.
    TriggerPause,
}

/// Counts ticks in a row without a frame. On the tick that reaches the
/// threshold it asks for a pause and starts over.
pub fn step_no_frame_watchdog(counter: &mut u32, has_frame: bool, threshold: u32) -> (r: NoFrameStep)
    ensures
        r == watchdog_step(*old(counter), has_frame, threshold),
        *final(counter) == watchdog_counter(*old(counter), has_frame, threshold),
{
    if has_frame {
        *counter = 0;
        NoFrameStep::FrameOk
    } else {
        *counter = counter.saturating_add(1);
        if *counter >= threshold {
            *counter = 0;
            NoFrameStep::TriggerPause
        } else {
            NoFrameStep::Accumulating
        }
    }
}

/// Ticks in a row without a frame, this one counted in; the count stops at the
/// largest one that can be held.
pub open spec fn missed_in_a_row(counter: u32) -> int {
    if counter == u32::MAX {
        u32::MAX as int
    } else {
        counter + 1
    }
}

/// What the watchdog says of a tick.
pub open spec fn watchdog_step(counter: u32, has_frame: bool, threshold: u32) -> NoFrameStep {
    if has_frame {
        NoFrameStep::FrameOk
    } else if missed_in_a_row(counter) >= threshold {
        NoFrameStep::TriggerPause
    } else {
        NoFrameStep::Accumulating
    }
}

/// The watchdog's counter after a tick.
pub open spec fn watchdog_counter(counter: u32, has_frame: bool, threshold: u32) -> u32 {
    if watchdog_step(counter, has_frame, threshold) == NoFrameStep::Accumulating {
        missed_in_a_row(counter) as u32
    } else {
        0
    }
}

/// The watchdog's counter after a run of ticks.
pub open spec fn counter_after(counter: u32, frames: Seq<bool>, threshold: u32) -> u32
    decreases frames.len(),
{
    if frames.len() == 0 {
        counter
    } else {
        watchdog_counter(
            counter_after(counter, frames.drop_last(), threshold),
            frames.last(),
            threshold,
        )
    }
}

/// From a counter at 0, a run of `n` ticks without a frame, shorter than the
/// threshold, asks for no pause and leaves the counter at `n`; the tick that
/// reaches the threshold asks for one.
pub proof fn pauses_exactly_at_threshold(frames: Seq<bool>, threshold: u32)
    requires
        forall|i: int| 0 <= i < frames.len() ==> !frames[i],
        frames.len() < threshold,
    ensures
        counter_after(0, frames, threshold) == frames.len(),
        watchdog_step(counter_after(0, frames, threshold), false, threshold)
            == NoFrameStep::TriggerPause <==> frames.len() + 1 == threshold,
    decreases frames.len(),
{
    if frames.len() > 0 {
        pauses_exactly_at_threshold(frames.drop_last(), threshold);
        assert(!frames[frames.len() - 1]);
    }
}

/// The mean of `n` samples once the newest replaces one `n`th of the previous
/// mean, rounded down. With `n` of 0 it is the newest sample.
pub fn rolling_avg(prev: Nanos, new_val: Nanos, n: u32) -> (r: Nanos)
    ensures
        n == 0 ==> r == new_val,
        n > 0 ==> r == (prev * (n - 1) + new_val) / (n as int),
        n > 0 ==> n * r <= prev * (n - 1) + new_val < n * (r + 1),
        n > 0 ==> (prev <= r <= new_val || new_val <= r <= prev),
{
    if n == 0 {
        return new_val;
    }
    let p: u128 = prev as u128;
    let m: u128 = (n - 1) as u128;
    let v: u128 = new_val as u128;
    assert(0 <= p * m <= 0x1_0000_0000_0000_0000 * 0x1_0000_0000) by (nonlinear_arith)
        requires
            0 <= p <= 0x1_0000_0000_0000_0000,
            0 <= m <= 0x1_0000_0000,
    ;
    let total: u128 = p * m + v;
    let nn: u128 = n as u128;
    let r: u128 = total / nn;
    assert(r <= u64::MAX) by (nonlinear_arith)
        requires
            r == total / nn,
            total == p * m + v,
            p <= u64::MAX,
            v <= u64::MAX,
            nn == m + 1,
            0 <= m,
            0 <= p,
            0 <= v,
    ;
    assert(nn * r <= total < nn * (r + 1)) by (nonlinear_arith)
        requires
            r == total / nn,
            nn > 0,
    ;
    assert((p <= r <= v) || (v <= r <= p)) by (nonlinear_arith)
        requires
            nn * r <= total < nn * (r + 1),
            total == p * m + v,
            nn == m + 1,
            0 <= m,
    ;
    r as u64
}

/// A frame starts the watch over. Without one the count grows by one; on the tick on which it would
/// reach the threshold the bot is to pause, and the count starts over.
pub proof fn the_watchdog_counts_missing_frames(counter: u32, threshold: u32)
    ensures
        watchdog_step(counter, true, threshold) == NoFrameStep::FrameOk,
        watchdog_counter(counter, true, threshold) == 0,
        counter + 1 < threshold ==> watchdog_step(counter, false, threshold)
            == NoFrameStep::Accumulating && watchdog_counter(counter, false, threshold) == counter
            + 1,
        counter + 1 >= threshold ==> watchdog_step(counter, false, threshold)
            == NoFrameStep::TriggerPause && watchdog_counter(counter, false, threshold) == 0,
{
}

/// The loop's watchdog pauses on the last tick of four seconds of thirty ticks without a frame, and
/// not before.
pub proof fn four_seconds_without_a_frame_pause(counter: u32)
    ensures
        counter < 119 ==> watchdog_step(counter, false, NO_FRAME_PAUSE_TICKS)
            == NoFrameStep::Accumulating,
        counter >= 119 ==> watchdog_step(counter, false, NO_FRAME_PAUSE_TICKS)
            == NoFrameStep::TriggerPause,
{
}

} // verus!
