//! Troop movement and territorial combat on a planet whose surface is a grid of
//! latitudes and longitudes.
//!
//! The crate holds the rules of the simulation and proves them with Verus:
//!
//! - `globe::coordinates_system`: the closed grid and its neighbourhoods, the map
//!   from cells to their owners, and the search for trajectories that stay
//!   within a territory, which are shortest trails over the grid;
//! - `globe::territories`: the territories, their states and the troops in them;
//! - `troops`: what a troop is busy with, how it follows a trajectory, how it is
//!   sent somewhere and what its arrival leads to;
//! - `troops::combat`: when a troop gets into a fight, whom it targets, when it
//!   closes in and when it fires.
//!
//! The library decides and its caller acts. Each tick the caller hands it what it
//! has read from the world as plain values, and is told what to do. Positions in
//! space are values of a type `P` of the caller's choice, which the library
//! carries and never looks into. Lengths and durations are whole numbers of
//! millionths of a unit of space or of a second.

pub mod globe;
pub mod i18n;
pub mod measures;
pub mod player;
pub mod troops;
