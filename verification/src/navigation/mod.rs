//! Walking over the map of the game.

pub mod astar;
pub mod map_files;
pub mod overrides;
pub mod storage;
pub mod walkability;
