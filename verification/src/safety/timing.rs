//! Bell-shaped delays.
//!
//! A draw is given as a standard score `z` in millionths: how many standard
//! deviations the drawn value lies from the mean. Draws are clamped to three
//! deviations on either side and then raised to a floor.

use vstd::prelude::*;

verus! {

/// Three standard deviations, in millionths.
pub const Z_CLAMP: i64 = 3_000_000;

/// A standard score, clamped to three deviations.
pub open spec fn clamp_z(z: int) -> int {
    if z < -3_000_000 {
        -3_000_000
    } else if z > 3_000_000 {
        3_000_000
    } else {
        z
    }
}

/// The distance from the mean of a draw, rounded towards zero.
pub open spec fn spread(stddev: int, z: int) -> int {
    if clamp_z(z) >= 0 {
        stddev * clamp_z(z) / 1_000_000
    } else {
        -(stddev * -clamp_z(z) / 1_000_000)
    }
}

/// The value of a draw: within three deviations of the mean, and no less than
/// `min`.
pub open spec fn gauss(mean: int, stddev: int, z: int, min: int) -> int {
    if mean + spread(stddev, z) < min {
        min
    } else {
        mean + spread(stddev, z)
    }
}

/// A spread is at most three deviations.
pub proof fn spread_bound(stddev: int, z: int)
    requires
        0 <= stddev,
    ensures
        -3 * stddev <= spread(stddev, z) <= 3 * stddev,
{
    let c = clamp_z(z);
    let m = if c >= 0 { c } else { -c };
    assert(0 <= stddev * m <= stddev * 3_000_000) by (nonlinear_arith)
        requires
            0 <= stddev,
            0 <= m <= 3_000_000,
    ;
}

/// Every draw lies within three deviations of the mean, but for the floor.
pub proof fn gauss_bound(mean: int, stddev: int, z: int, min: int)
    requires
        0 <= stddev,
    ensures
        min <= gauss(mean, stddev, z, min),
        gauss(mean, stddev, z, min) <= mean + 3 * stddev || gauss(mean, stddev, z, min) == min,
        gauss(mean, stddev, z, min) >= mean - 3 * stddev,
{
    spread_bound(stddev, z);
}

/// Without spread a draw is the mean, but for the floor.
pub proof fn gauss_without_spread(mean: int, z: int, min: int)
    ensures
        gauss(mean, 0, z, min) == if mean < min { min } else { mean },
{
    let c = clamp_z(z);
    assert(0 * c == 0 && 0 * -c == 0);
}

/// The value of a draw. Mean, spread and floor share one unit.
pub fn draw(mean: i128, stddev: i128, z: i64, min: i128) -> (r: i128)
    requires
        0 <= stddev <= 0x1_0000_0000_0000_0000_0000_0000,
        -0x1_0000_0000_0000_0000_0000_0000 <= mean <= 0x1_0000_0000_0000_0000_0000_0000,
    ensures
        r == gauss(mean as int, stddev as int, z as int, min as int),
{
    let c: i64 = if z < -Z_CLAMP {
        -Z_CLAMP
    } else if z > Z_CLAMP {
        Z_CLAMP
    } else {
        z
    };
    let m: i128 = if c >= 0 { c as i128 } else { -(c as i128) };
    assert(0 <= stddev * m <= 0x1_0000_0000_0000_0000_0000_0000 * 3_000_000) by (nonlinear_arith)
        requires
            0 <= stddev <= 0x1_0000_0000_0000_0000_0000_0000,
            0 <= m <= 3_000_000,
    ;
    let part: i128 = stddev * m / 1_000_000;
    proof {
        spread_bound(stddev as int, z as int);
    }
    let value: i128 = if c >= 0 { mean + part } else { mean - part };
    if value < min {
        min
    } else {
        value
    }
}

/// A bell-shaped distribution, in a unit of the caller's choice.
#[derive(Clone, Copy, Debug, PartialEq, Eq, Structural)]
pub struct GaussSampler {
    pub mean: i64,
    pub stddev: i64,
}

impl GaussSampler {
    /// The spread is a distance.
    pub open spec fn wf(self) -> bool {
        0 <= self.stddev
    }

    /// A distribution with the given mean and spread; a negative spread counts
    /// as none.
    pub fn new(mean: i64, stddev: i64) -> (r: Self)
        ensures
            r.wf(),
            r.mean == mean,
            r.stddev == if stddev < 0 { 0 } else { stddev },
    {
        GaussSampler { mean, stddev: if stddev < 0 { 0 } else { stddev } }
    }

    /// The value of the draw `z`, no less than `min`.
    pub fn sample_clamped(&self, z: i64, min: i64) -> (r: i128)
        requires
            self.wf(),
        ensures
            r == gauss(self.mean as int, self.stddev as int, z as int, min as int),
    {
        draw(self.mean as i128, self.stddev as i128, z, min as i128)
    }

    /// The mean.
    pub fn mean(&self) -> (r: i64)
        ensures
            r == self.mean,
    {
        self.mean
    }

    /// The spread.
    pub fn stddev(&self) -> (r: i64)
        ensures
            r == self.stddev,
    {
        self.stddev
    }
}

/// The delay in milliseconds of a draw around a mean in microseconds: rounded
/// to the nearest millisecond, and at least one.
pub open spec fn gauss_ms(mean_us: int, stddev_us: int, z: int) -> int {
    (gauss(mean_us, stddev_us, z, 1_000) + 500) / 1_000
}

/// The delay in ticks of a draw around a mean in microseconds, at `fps` ticks
/// per second: rounded to the nearest tick, at least one, and at most what a
/// tick count holds.
pub open spec fn gauss_ticks(mean_us: int, stddev_us: int, fps: int, z: int) -> int {
    let f = if fps < 1 { 1 } else { fps };
    let ticks = (gauss(mean_us * f, stddev_us * f, z, 1_000_000) + 500_000) / 1_000_000;
    if ticks > u64::MAX {
        u64::MAX as int
    } else {
        ticks
    }
}

/// A delay is at least one tick and fits a tick count.
pub proof fn gauss_ticks_positive(mean_us: int, stddev_us: int, fps: int, z: int)
    requires
        0 <= stddev_us,
    ensures
        1 <= gauss_ticks(mean_us, stddev_us, fps, z) <= u64::MAX,
{
}

/// Longest mean and spread of a delay, in microseconds.
pub const DELAY_LIMIT_US: i64 = 0x0004_0000_0000_0000;

/// Greatest number of ticks per second.
pub const FPS_LIMIT: u32 = 1_000_000;

/// Delays with this mean and spread stay far from the end of the tick count.
pub open spec fn delay_fits(mean_us: int, stddev_us: int, fps: int) -> bool {
    mean_us <= DELAY_LIMIT_US && stddev_us <= DELAY_LIMIT_US && 0 <= fps <= FPS_LIMIT
}

/// A delay within the limits is at most `0x20_0000_0000_0000` ticks long.
pub proof fn gauss_ticks_bound(mean_us: int, stddev_us: int, fps: int, z: int)
    requires
        0 <= stddev_us,
        delay_fits(mean_us, stddev_us, fps),
    ensures
        1 <= gauss_ticks(mean_us, stddev_us, fps, z) <= 0x20_0000_0000_0000,
{
    let f = if fps < 1 { 1 } else { fps };
    assert(mean_us * f <= 0x0004_0000_0000_0000 * 1_000_000) by (nonlinear_arith)
        requires
            mean_us <= 0x0004_0000_0000_0000,
            1 <= f <= 1_000_000,
    ;
    assert(0 <= stddev_us * f <= 0x0004_0000_0000_0000 * 1_000_000) by (nonlinear_arith)
        requires
            0 <= stddev_us <= 0x0004_0000_0000_0000,
            1 <= f <= 1_000_000,
    ;
    gauss_bound(mean_us * f, stddev_us * f, z, 1_000_000);
}

/// A delay in milliseconds, from a mean and a spread in microseconds. A
/// negative spread counts as none.
pub fn sample_gauss_ms(mean_us: i64, stddev_us: i64, z: i64) -> (r: u64)
    ensures
        r == gauss_ms(mean_us as int, if stddev_us < 0 { 0 } else { stddev_us as int }, z as int),
        r >= 1,
{
    let s = GaussSampler::new(mean_us, stddev_us);
    proof {
        gauss_bound(s.mean as int, s.stddev as int, z as int, 1_000);
    }
    let v: i128 = s.sample_clamped(z, 1_000);
    let r: i128 = (v + 500) / 1_000;
    r as u64
}

/// A delay in ticks, from a mean and a spread in microseconds. A negative
/// spread counts as none.
pub fn sample_gauss_ticks(mean_us: i64, stddev_us: i64, fps: u32, z: i64) -> (r: u64)
    ensures
        r == gauss_ticks(
            mean_us as int,
            if stddev_us < 0 { 0 } else { stddev_us as int },
            fps as int,
            z as int,
        ),
        r >= 1,
{
    let f: i128 = if fps < 1 { 1 } else { fps as i128 };
    let std: i128 = if stddev_us < 0 { 0 } else { stddev_us as i128 };
    let mean: i128 = mean_us as i128;
    assert(-0x8000_0000_0000_0000 * 0x1_0000_0000 <= mean * f <= 0x8000_0000_0000_0000
        * 0x1_0000_0000) by (nonlinear_arith)
        requires
            -0x8000_0000_0000_0000 <= mean <= 0x8000_0000_0000_0000,
            1 <= f <= 0x1_0000_0000,
    ;
    assert(0 <= std * f <= 0x8000_0000_0000_0000 * 0x1_0000_0000) by (nonlinear_arith)
        requires
            0 <= std <= 0x8000_0000_0000_0000,
            1 <= f <= 0x1_0000_0000,
    ;
    proof {
        gauss_bound(mean * f, std * f, z as int, 1_000_000);
    }
    let v: i128 = draw(mean * f, std * f, z, 1_000_000);
    let ticks: i128 = (v + 500_000) / 1_000_000;
    if ticks > 0xFFFF_FFFF_FFFF_FFFF {
        u64::MAX
    } else {
        ticks as u64
    }
}

/// A draw within three deviations lies as many deviations from the mean as its score says, to the
/// next unit towards the mean; on the other side of the mean it lies as far. One beyond counts as
/// one at three deviations. Only the floor raises it.
pub proof fn a_draw_lies_where_its_score_says(mean: int, stddev: int, z: int, min: int)
    requires
        0 <= stddev,
    ensures
        0 <= z <= 3_000_000 && gauss(mean, stddev, z, min) > min ==> 0 <= stddev * z - 1_000_000 * (
        gauss(mean, stddev, z, min) - mean) < 1_000_000,
        -3_000_000 <= z <= 0 && gauss(mean, stddev, z, min) > min ==> 0 <= 1_000_000 * (gauss(
            mean,
            stddev,
            z,
            min,
        ) - mean) - stddev * z < 1_000_000,
        z > 3_000_000 ==> gauss(mean, stddev, z, min) == gauss(mean, stddev, 3_000_000, min),
        z < -3_000_000 ==> gauss(mean, stddev, z, min) == gauss(mean, stddev, -3_000_000, min),
        gauss(mean, stddev, z, min) >= min,
        gauss(mean, stddev, 0, min) == if mean < min {
            min
        } else {
            mean
        },
{
    let m: int = if z >= 0 {
        z
    } else {
        -z
    };
    assert(stddev * -z == -(stddev * z)) by (nonlinear_arith);
    assert(stddev * 0 == 0);
    assert(stddev * m >= 0) by (nonlinear_arith)
        requires
            stddev >= 0,
            m >= 0,
    ;
}

/// A delay in milliseconds is the nearest one to its draw, and one in ticks is the nearest number
/// of ticks, of which there are `fps` in a second, and at least one.
pub proof fn delays_are_rounded_to_the_nearest(mean_us: int, stddev_us: int, fps: int, z: int)
    requires
        fps >= 1,
        0 <= stddev_us,
    ensures
        -500 <= 1_000 * gauss_ms(mean_us, stddev_us, z) - gauss(mean_us, stddev_us, z, 1_000)
            <= 500,
        gauss_ticks(mean_us, stddev_us, fps, z) < u64::MAX ==> -500_000 <= 1_000_000 * gauss_ticks(
            mean_us,
            stddev_us,
            fps,
            z,
        ) - gauss(mean_us * fps, stddev_us * fps, z, 1_000_000) <= 500_000,
        gauss_ticks(mean_us, stddev_us, fps, z) >= 1,
        gauss_ms(mean_us, stddev_us, z) >= 1,
{
}

/// A delay without spread is its mean, whatever is drawn: a second at thirty ticks a second is
/// thirty ticks, and any whole number of milliseconds is itself.
pub proof fn a_delay_without_spread_is_its_mean(seconds: int, ms: int, fps: int, z: int)
    requires
        1 <= seconds,
        1 <= ms,
        1 <= fps,
        seconds * fps <= u64::MAX,
    ensures
        gauss_ticks(1_000_000 * seconds, 0, fps, z) == seconds * fps,
        gauss_ms(1_000 * ms, 0, z) == ms,
{
    gauss_without_spread(1_000 * ms, z, 1_000);
    assert(0 * fps == 0);
    assert(1_000_000 * seconds * fps == 1_000_000 * (seconds * fps)) by (nonlinear_arith);
    assert(seconds * fps >= 1) by (nonlinear_arith)
        requires
            seconds >= 1,
            fps >= 1,
    ;
    gauss_without_spread(1_000_000 * (seconds * fps), z, 1_000_000);
}

} // verus!
