//! Occasional harmless key taps.

use vstd::prelude::*;
use crate::safety::chance::random_element;
use crate::safety::timing::{gauss, gauss_bound, GaussSampler};
use crate::units::Nanos;

verus! {

/// Least time between two taps, in microseconds.
pub const MIN_INTERVAL_US: i64 = 5_000_000;

/// Latest moment that schedules are made at: far beyond any uptime, and far
/// enough from the end of the clock for every interval to fit.
pub const CLOCK_LIMIT: Nanos = 0x4000_0000_0000_0000;

/// Longest interval that a schedule may have, in microseconds.
pub const INTERVAL_LIMIT_US: i64 = 0x0001_FFFF_FFFF_FFFF;

/// Taps one of a set of harmless keys from time to time.
pub struct HumanNoise {
    pub keys: Vec<u8>,
    /// Interval between taps, in microseconds.
    pub interval: GaussSampler,
    /// The moment of the next tap.
    pub next_at: Nanos,
    /// How many taps there were.
    pub emitted: u64,
}

/// The moment of the tap after one at `now`, from the draw `z`.
pub open spec fn next_moment(interval: GaussSampler, min_us: int, now: Nanos, z: int) -> int {
    now + gauss(interval.mean as int, interval.stddev as int, z, min_us) * 1_000
}

/// The longest interval of a distribution stays within range.
pub open spec fn interval_fits(interval: GaussSampler) -> bool {
    &&& interval.wf()
    &&& interval.mean <= INTERVAL_LIMIT_US
    &&& interval.stddev <= INTERVAL_LIMIT_US
}

/// The moment that follows `now` by the interval of the draw `z`.
pub fn schedule_next(interval: &GaussSampler, min_us: i64, now: Nanos, z: i64) -> (r: Nanos)
    requires
        interval_fits(*interval),
        0 <= min_us <= INTERVAL_LIMIT_US,
        now <= CLOCK_LIMIT,
    ensures
        r == next_moment(*interval, min_us as int, now, z as int),
        r >= now + min_us * 1_000,
{
    proof {
        gauss_bound(interval.mean as int, interval.stddev as int, z as int, min_us as int);
    }
    let us: i128 = interval.sample_clamped(z, min_us);
    now + (us as u64) * 1_000
}

impl HumanNoise {
    /// Intervals stay within range.
    pub open spec fn wf(self) -> bool {
        interval_fits(self.interval)
    }

    /// A tap is due at `now`.
    pub open spec fn due(self, now: Nanos) -> bool {
        self.keys@.len() > 0 && now >= self.next_at
    }

    /// Taps the given keys, with intervals around `interval_mean_us`; the first
    /// tap comes an interval of the draw `z` after `now`.
    pub fn new(
        keys: Vec<u8>,
        interval_mean_us: i64,
        interval_std_us: i64,
        now: Nanos,
        z: i64,
    ) -> (r: Self)
        requires
            interval_mean_us <= INTERVAL_LIMIT_US,
            interval_std_us <= INTERVAL_LIMIT_US,
            now <= CLOCK_LIMIT,
        ensures
            r.wf(),
            r.keys == keys,
            r.interval.mean == interval_mean_us,
            r.interval.stddev == if interval_std_us < 0 { 0 } else { interval_std_us },
            r.next_at == next_moment(r.interval, MIN_INTERVAL_US as int, now, z as int),
            r.emitted == 0,
    {
        let interval = GaussSampler::new(interval_mean_us, interval_std_us);
        let next_at: Nanos = schedule_next(&interval, MIN_INTERVAL_US, now, z);
        HumanNoise { keys, interval, next_at, emitted: 0 }
    }

    /// One of the keys where a tap is due at `now`; the next tap then comes an
    /// interval of the draw `z` later.
    pub fn tick(&mut self, now: Nanos, z: i64) -> (r: Option<u8>)
        requires
            old(self).wf(),
            now <= CLOCK_LIMIT,
        ensures
            final(self).wf(),
            final(self).keys == old(self).keys,
            final(self).interval == old(self).interval,
            r is Some <==> old(self).due(now),
            r matches Some(k) ==> old(self).keys@.contains(k),
            r is Some ==> final(self).next_at == next_moment(
                old(self).interval,
                MIN_INTERVAL_US as int,
                now,
                z as int,
            ) && final(self).emitted == if old(self).emitted == u64::MAX {
                u64::MAX
            } else {
                (old(self).emitted + 1) as u64
            },
            r is None ==> *final(self) == *old(self),
    {
        if self.keys.len() == 0 {
            return None;
        }
        if now < self.next_at {
            return None;
        }
        let choice = random_element(&self.keys);
        if choice.is_some() {
            self.emitted = self.emitted.saturating_add(1);
        }
        self.next_at = schedule_next(&self.interval, MIN_INTERVAL_US, now, z);
        choice
    }

    /// How many taps there were.
    pub fn emitted_count(&self) -> (r: u64)
        ensures
            r == self.emitted,
    {
        self.emitted
    }
}

/// After a tap at `now`, no tap is due for at least five seconds.
pub proof fn taps_are_spaced(interval: GaussSampler, now: Nanos, z: int)
    requires
        interval.wf(),
    ensures
        next_moment(interval, MIN_INTERVAL_US as int, now, z) >= now + 5_000_000_000,
{
    gauss_bound(interval.mean as int, interval.stddev as int, z, MIN_INTERVAL_US as int);
}

/// The next tap comes the drawn interval later, a thousand nanoseconds for each microsecond, and
/// never before the least interval has passed; with the mean drawn it comes the mean later.
pub proof fn the_next_tap_comes_an_interval_later(
    interval: GaussSampler,
    min_us: int,
    now: Nanos,
    z: int,
)
    requires
        interval.wf(),
        0 <= min_us,
    ensures
        next_moment(interval, min_us, now, z) - now == 1_000 * gauss(
            interval.mean as int,
            interval.stddev as int,
            z,
            min_us,
        ),
        next_moment(interval, min_us, now, z) >= now + 1_000 * min_us,
        interval.mean >= min_us ==> next_moment(interval, min_us, now, 0) == now + 1_000
            * interval.mean,
{
    gauss_bound(interval.mean as int, interval.stddev as int, z, min_us);
    crate::safety::timing::a_draw_lies_where_its_score_says(
        interval.mean as int,
        interval.stddev as int,
        0,
        min_us,
    );
}

/// A tap is due from its moment on, as long as there is a key to tap.
pub proof fn a_tap_is_due_from_its_moment_on(h: HumanNoise, now: Nanos)
    ensures
        h.due(now) == (h.next_at <= now && h.keys@.len() != 0),
{
}

} // verus!
