//! How fast a troop moves.

use vstd::prelude::*;
use crate::measures::Distance;

verus! {

/// The paces of a troop.
#[derive(Debug, Clone, Copy, PartialEq, Eq, Hash, Structural)]
pub enum SpeedType {
    /// The pace of a troop that walks its own territory.
    Patrolling,
    /// The pace of a troop that was sent somewhere or that fights.
    FightOrFlight,
}

impl SpeedType {
    /// The length that a troop at this speed covers in a second.
    pub open spec fn speed(self) -> Distance {
        match self {
            SpeedType::Patrolling => 50_000,
            SpeedType::FightOrFlight => 150_000,
        }
    }

    /// The length that a troop at this speed covers in a second.
    pub fn get_speed(&self) -> (speed: Distance)
        ensures
            speed == self.speed(),
    {
        match self {
            SpeedType::Patrolling => 50_000,
            SpeedType::FightOrFlight => 150_000,
        }
    }
}

} // verus!
