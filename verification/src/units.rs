//! Fixed-point units used in place of fractional numbers.

use vstd::prelude::*;

verus! {

/// A ratio in parts per million: `1_000_000` stands for 1.0.
pub type Ppm = u32;

/// A point in time or a duration, in nanoseconds of a monotonic clock.
pub type Nanos = u64;

/// The ratio 1.0.
pub const ONE: Ppm = 1_000_000;

/// Nanoseconds in one millisecond.
pub const NANOS_PER_MILLI: u64 = 1_000_000;

/// Nanoseconds in one second.
pub const NANOS_PER_SEC: u64 = 1_000_000_000;

} // verus!
