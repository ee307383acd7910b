//! The planet: its grid of surface coordinates and the territories on it.

pub mod coordinates_system;
pub mod territories;
