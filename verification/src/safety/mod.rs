//! Rules that keep the pace of the bot within human bounds.

pub mod breaks;
pub mod chance;
pub mod human_noise;
pub mod rate_limit;
pub mod reaction;
pub mod session_limit;
pub mod timing;
pub mod variation;
