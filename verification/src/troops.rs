//! Troops: how they move, what they are busy with and how they fight.

pub mod combat;
pub mod deployment;
pub mod mesh_map;
pub mod selection;
pub mod speed;
pub mod surface;
pub mod troop;
