//! A cap on the length of a session.

use vstd::prelude::*;

verus! {

/// Ticks in a duration given in millionths of a unit of `seconds` seconds,
/// rounded down; at most what a tick count holds.
pub open spec fn ticks_in(micros: int, seconds: int, fps: int) -> int {
    let t = micros * seconds * fps / 1_000_000;
    if t > u64::MAX {
        u64::MAX as int
    } else {
        t
    }
}

fn compute_ticks(micros: i64, seconds: u32, fps: u32) -> (r: u64)
    requires
        micros > 0,
        seconds <= 3600,
    ensures
        r == ticks_in(micros as int, seconds as int, fps as int),
{
    let m: u128 = micros as u128;
    let s: u128 = seconds as u128;
    let f: u128 = fps as u128;
    assert(0 <= m * s <= 0x8000_0000_0000_0000 * 3600) by (nonlinear_arith)
        requires
            0 <= m <= 0x8000_0000_0000_0000,
            0 <= s <= 3600,
    ;
    assert(0 <= (m * s) * f <= 0x8000_0000_0000_0000 * 3600 * 0x1_0000_0000) by (nonlinear_arith)
        requires
            0 <= m * s <= 0x8000_0000_0000_0000 * 3600,
            0 <= f <= 0x1_0000_0000,
    ;
    let t: u128 = m * s * f / 1_000_000;
    if t > 0xFFFF_FFFF_FFFF_FFFF {
        u64::MAX
    } else {
        t as u64
    }
}

/// Ends a session after a number of ticks, with an optional warning before.
#[derive(Clone, Copy, Debug, PartialEq, Eq, Structural)]
pub struct SessionLimit {
    /// Ticks that a session may last.
    pub max_ticks: u64,
    /// The tick at which the session began.
    pub start_tick: u64,
    /// How many ticks before the end the warning comes; 0 for no warning.
    pub warning_margin_ticks: u64,
}

impl SessionLimit {
    /// The warning never comes before the session starts.
    pub open spec fn wf(self) -> bool {
        self.warning_margin_ticks <= self.max_ticks
    }

    /// Ticks since the session began; 0 where the clock is before its start.
    pub open spec fn elapsed(self, now_tick: u64) -> int {
        if now_tick < self.start_tick {
            0
        } else {
            now_tick - self.start_tick
        }
    }

    /// The session has lasted as long as it may.
    pub open spec fn expired(self, now_tick: u64) -> bool {
        self.elapsed(now_tick) >= self.max_ticks
    }

    /// The session is within the warning margin of its end.
    pub open spec fn warns(self, now_tick: u64) -> bool {
        self.warning_margin_ticks != 0 && self.elapsed(now_tick) >= self.max_ticks
            - self.warning_margin_ticks
    }

    /// A limit of `max_hours` millionths of an hour; `None` where that is not
    /// positive, which switches the limit off.
    pub fn new(max_hours: i64, fps: u32, start_tick: u64) -> (r: Option<Self>)
        ensures
            r is None <==> max_hours <= 0,
            r matches Some(sl) ==> sl.wf() && sl == (SessionLimit {
                max_ticks: ticks_in(max_hours as int, 3600, fps as int) as u64,
                start_tick,
                warning_margin_ticks: 0,
            }),
    {
        if max_hours <= 0 {
            return None;
        }
        let max_ticks: u64 = compute_ticks(max_hours, 3600, fps);
        Some(SessionLimit { max_ticks, start_tick, warning_margin_ticks: 0 })
    }

    /// The same limit with a warning `warning_min` millionths of a minute
    /// before its end, and no earlier than its start. A margin that is not
    /// positive leaves the limit as it is.
    pub fn with_warning_min(self, warning_min: i64, fps: u32) -> (r: Self)
        ensures
            self.wf() ==> r.wf(),
            r.max_ticks == self.max_ticks,
            r.start_tick == self.start_tick,
            warning_min <= 0 ==> r == self,
            warning_min > 0 ==> r.warning_margin_ticks == if ticks_in(
                warning_min as int,
                60,
                fps as int,
            ) < self.max_ticks {
                ticks_in(warning_min as int, 60, fps as int)
            } else {
                self.max_ticks as int
            },
    {
        let mut r = self;
        if warning_min > 0 {
            let ticks: u64 = compute_ticks(warning_min, 60, fps);
            r.warning_margin_ticks = if ticks < self.max_ticks {
                ticks
            } else {
                self.max_ticks
            };
        }
        r
    }

    /// Whether the session has lasted as long as it may.
    pub fn is_expired(&self, now_tick: u64) -> (r: bool)
        ensures
            r == self.expired(now_tick),
    {
        now_tick.saturating_sub(self.start_tick) >= self.max_ticks
    }

    /// Whether the session is within the warning margin of its end.
    pub fn is_warning(&self, now_tick: u64) -> (r: bool)
        ensures
            r == self.warns(now_tick),
    {
        if self.warning_margin_ticks == 0 {
            return false;
        }
        let elapsed: u64 = now_tick.saturating_sub(self.start_tick);
        let threshold: u64 = self.max_ticks.saturating_sub(self.warning_margin_ticks);
        elapsed >= threshold
    }

    /// Millionths of an hour since the session began.
    pub fn elapsed_hours(&self, now_tick: u64, fps: u32) -> (r: u128)
        requires
            fps > 0,
        ensures
            r == self.elapsed(now_tick) * 1_000_000 / (fps * 3600),
    {
        let ticks: u128 = self.elapsed_ticks(now_tick) as u128;
        ticks * 1_000_000 / (fps as u128 * 3600)
    }

    /// Ticks since the session began.
    pub fn elapsed_ticks(&self, now_tick: u64) -> (r: u64)
        ensures
            r == self.elapsed(now_tick),
    {
        now_tick.saturating_sub(self.start_tick)
    }
}

/// Once a session has warned or ended, it stays so as time goes on, and a
/// limit with a warning margin warns no later than it ends.
pub proof fn session_only_ages(sl: SessionLimit, now: u64, later: u64)
    requires
        sl.wf(),
        now <= later,
    ensures
        sl.expired(now) ==> sl.expired(later),
        sl.warns(now) ==> sl.warns(later),
        sl.expired(now) && sl.warning_margin_ticks > 0 ==> sl.warns(now),
{
}

/// A duration is as many ticks as fit into it, up to the largest number: micros of a unit of
/// `seconds` seconds, at `fps` ticks a second.
pub proof fn a_duration_is_the_ticks_that_fit(micros: int, seconds: int, fps: int)
    requires
        0 <= micros,
        0 <= seconds,
        0 <= fps,
    ensures
        ticks_in(micros, seconds, fps) < u64::MAX ==> 1_000_000 * ticks_in(micros, seconds, fps)
            <= micros * seconds * fps < 1_000_000 * (ticks_in(micros, seconds, fps) + 1),
        micros * seconds * fps >= 1_000_000 * (u64::MAX + 1) ==> ticks_in(micros, seconds, fps)
            == u64::MAX,
{
}

/// A session is over from `max_ticks` after its start on, and it warns from `warning_margin_ticks`
/// before that on; without a margin it never warns.
pub proof fn a_session_ends_after_its_ticks(sl: SessionLimit, now: u64)
    requires
        sl.wf(),
        sl.max_ticks > 0,
    ensures
        sl.expired(now) == (now >= sl.start_tick + sl.max_ticks),
        sl.warning_margin_ticks == 0 ==> !sl.warns(now),
        0 < sl.warning_margin_ticks < sl.max_ticks ==> sl.warns(now) == (now + sl.warning_margin_ticks
            >= sl.start_tick + sl.max_ticks),
        sl.warning_margin_ticks == sl.max_ticks ==> sl.warns(now),
        now >= sl.start_tick ==> sl.elapsed(now) == now - sl.start_tick,
        now < sl.start_tick ==> sl.elapsed(now) == 0,
{
}

} // verus!
