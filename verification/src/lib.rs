//! A verified decision core for a game bot: the state machine that picks an
//! action every tick, the safety rules around it, and the bookkeeping that
//! operators read.

pub mod boot;
pub mod config;
pub mod fsm;
pub mod health;
pub mod instrumentation;
pub mod keycode;
pub mod loop_;
pub mod navigation;
pub mod perception;
pub mod remote;
pub mod safety;
pub mod scripting;
pub mod spell_table;
pub mod state;
pub mod text;
pub mod units;
