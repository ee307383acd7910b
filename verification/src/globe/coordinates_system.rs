//! The coordinate grid and the routes across it.

pub mod coordinates_system;
pub mod flow_field;
pub mod grid;
pub mod heat_map;
pub mod surface_point;
pub mod virtual_planet;
