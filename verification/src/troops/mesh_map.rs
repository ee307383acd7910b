//! The shapes in which a troop can be shown.

use vstd::prelude::*;

verus! {

/// The shapes of troops, four for the land and seven for the sea.
#[derive(Debug, Clone, Copy, PartialEq, Eq, Hash, Structural)]
pub enum MeshId {
    Cannon,
    Tank1,
    Tonk,
    Truck1,
    Boat1,
    Boat2,
    Boat3,
    Boat4,
    Boat5,
    Boat6,
    Galleon,
}

} // verus!
