//! Timings and counters of the loop.

pub mod histogram;
pub mod recorder;
pub mod registry;
pub mod tick;
pub mod window;
