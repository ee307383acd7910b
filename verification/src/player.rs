//! The players and what tells them apart.

pub mod color;
pub mod player;
