//! The tick loop: what happens on each tick between looking at the screen and
//! pressing keys.

pub mod act;
pub mod bot_loop;
pub mod commands;
pub mod dispatch;
pub mod finish;
pub mod kills;
pub mod loot;
pub mod pause;
pub mod schedule;
pub mod setup;
pub mod think;
pub mod typing;
