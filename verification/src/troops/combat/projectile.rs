//! What a cannon fires.

use vstd::prelude::*;
use crate::globe::coordinates_system::coordinates_system::{CoordinatesSystem, NUM_OF_WAYPOINTS};
use crate::globe::territories::roster::TroopId;
use crate::measures::{Distance, WAYPOINT_TOLERANCE};
use crate::troops::troop::WaypointSighting;

verus! {

/// What a projectile can be fired at.
pub enum TypesOfTarget {
    Troop,
}

/// The length that a projectile covers in a second.
pub const PROJECTILE_SPEED: Distance = 950_000;

/// What a projectile does in a tick.
#[derive(Debug, Clone, Copy, PartialEq, Eq, Structural)]
pub enum ProjectileStep {
    /// The projectile flies on towards its target, at the given speed.
    Fly(Distance),
    /// The projectile has reached its target, and is no more.
    Hit,
}

/// A projectile on its way to a target.
pub struct Projectile<P> {
    pub showing: bool,
    pub trajectory: Vec<P>,
    pub trajectory_is_set: bool,
    pub current_trajectory_point: usize,
    pub target: Option<TypesOfTarget>,
    /// Where the target is, as last seen.
    pub up_to_date_target_position: P,
    pub current_position: P,
    /// The troop that fired the projectile.
    pub fired_by: TroopId,
}

impl<P: Copy> Projectile<P> {
    /// A projectile that `fired_by` fires from `position` at a target that is at
    /// `target_position`. It has no trajectory yet.
    pub fn new(position: P, target_position: P, fired_by: TroopId) -> (projectile: Self)
        ensures
            projectile.showing,
            projectile.trajectory@ == Seq::<P>::empty(),
            !projectile.trajectory_is_set,
            projectile.current_trajectory_point == 0,
            projectile.target is None,
            projectile.up_to_date_target_position == target_position,
            projectile.current_position == position,
            projectile.fired_by == fired_by,
    {
        Projectile {
            showing: true,
            trajectory: Vec::new(),
            trajectory_is_set: false,
            current_trajectory_point: 0,
            target: None,
            up_to_date_target_position: target_position,
            current_position: position,
            fired_by,
        }
    }

    /// Gives the projectile `geodesic_trajectory` as its trajectory, unless it has
    /// one; says whether it had none.
    pub fn maybe_upsert_trajectory(&mut self, geodesic_trajectory: &[P; NUM_OF_WAYPOINTS]) -> (upserted: bool)
        ensures
            upserted == !old(self).trajectory_is_set,
            !upserted ==> *final(self) == *old(self),
            upserted ==> final(self).trajectory@ == geodesic_trajectory@ && *final(self) == (Projectile {
                trajectory: final(self).trajectory,
                trajectory_is_set: true,
                ..*old(self)
            }),
    {
        if self.trajectory_is_set {
            return false;
        }
        self.trajectory = CoordinatesSystem::trajectory_to_vec(geodesic_trajectory);
        self.trajectory_is_set = true;
        true
    }

    /// What the projectile does in a tick, given how it stands to its target: it
    /// has hit the target if it is exactly at it or within `WAYPOINT_TOLERANCE`
    /// of it, and flies on at `PROJECTILE_SPEED` otherwise.
    pub fn move_towards_target(&self, sighting: &WaypointSighting) -> (step: ProjectileStep)
        ensures
            step == if !sighting.direction_is_defined || sighting.distance < WAYPOINT_TOLERANCE {
                ProjectileStep::Hit
            } else {
                ProjectileStep::Fly(PROJECTILE_SPEED)
            },
    {
        if !sighting.direction_is_defined || sighting.distance < WAYPOINT_TOLERANCE {
            ProjectileStep::Hit
        } else {
            ProjectileStep::Fly(PROJECTILE_SPEED)
        }
    }
}

} // verus!
