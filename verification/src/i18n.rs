//! The languages in which the game speaks to its players.

pub mod base;
