//! Territories: named regions of the grid, their ruler and their troops.

pub mod data;
pub mod roster;
pub mod territory;
