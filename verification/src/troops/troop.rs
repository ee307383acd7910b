//! A troop and what it is busy with.

use vstd::prelude::*;
use crate::globe::coordinates_system::coordinates_system::{
    is_in_the_frontiers_trajectory, same_territory, CoordinatesSystem, NUM_OF_WAYPOINTS,
};
use crate::globe::coordinates_system::virtual_planet::VirtualPlanet;
use crate::globe::coordinates_system::heat_map::HeatMap;
use crate::globe::coordinates_system::surface_point::{Coordinates, SurfacePoint, SurfacePointMetadata};
use crate::globe::territories::territory::TerritoryId;
use crate::measures::{Distance, Duration, WAYPOINT_TOLERANCE};
use crate::player::player::{Player, PlayerStaticInfo};
use super::combat::combat_stats::{CombatStats, CombatTypes};
use super::speed::SpeedType;
use super::surface::Surface;

verus! {

/// What a troop can be busy with. A troop can be busy with several of these at
/// once.
#[derive(Debug, Clone, Copy, PartialEq, Eq, Hash, Structural)]
pub enum TroopState {
    /// The troop is on its way, wherever and for whatever reason.
    Moving,
    /// The troop walks its own territory.
    Patrolling,
    /// The troop rests between two walks.
    Idle,
    /// The player has selected the troop.
    Selected,
    /// The troop is on its way to where its player sent it.
    Deploying,
    /// The troop fights.
    Combating(CombatTypes),
}

/// Whether a troop that is busy with `activities` is in a fight.
pub open spec fn is_combating(activities: Set<TroopState>) -> bool {
    exists|combat_type: CombatTypes| activities.contains(TroopState::Combating(combat_type))
}

/// What a troop may be busy with at once: it does not rest while it is on its
/// way, and it takes one side in a fight at most.
pub open spec fn is_consistent(activities: Set<TroopState>) -> bool {
    &&& !(activities.contains(TroopState::Idle) && activities.contains(TroopState::Moving))
    &&& forall|first: CombatTypes, second: CombatTypes|
        activities.contains(TroopState::Combating(first)) && activities.contains(
            TroopState::Combating(second),
        ) ==> first == second
}

/// The activities without any side in a fight.
pub open spec fn without_combat(activities: Set<TroopState>) -> Set<TroopState> {
    activities.remove(TroopState::Combating(CombatTypes::Attacking)).remove(
        TroopState::Combating(CombatTypes::Defending),
    ).remove(TroopState::Combating(CombatTypes::FightingOverUnoccupiedTerritory))
}

/// The activities of a troop that takes up `state`: a troop that gets on its
/// way stops resting, a troop that rests is no longer on its way, and a troop
/// that takes a side in a fight gives up any other side.
pub open spec fn taking_up(activities: Set<TroopState>, state: TroopState) -> Set<TroopState> {
    match state {
        TroopState::Moving => activities.remove(TroopState::Idle).insert(TroopState::Moving),
        TroopState::Idle => activities.remove(TroopState::Moving).insert(TroopState::Idle),
        TroopState::Combating(combat_type) => without_combat(activities).insert(state),
        _ => activities.insert(state),
    }
}

/// Activities that may go together still may when one more is taken up.
pub proof fn lemma_taking_up_is_consistent(activities: Set<TroopState>, state: TroopState)
    requires
        is_consistent(activities),
    ensures
        is_consistent(taking_up(activities, state)),
        taking_up(activities, state).contains(state),
{
}

/// Activities that may go together still may when one of them is given up.
pub proof fn lemma_giving_up_is_consistent(activities: Set<TroopState>, state: TroopState)
    requires
        is_consistent(activities),
    ensures
        is_consistent(activities.remove(state)),
        is_consistent(without_combat(activities)),
        !is_combating(without_combat(activities)),
{
    assert forall|combat_type: CombatTypes|
        !without_combat(activities).contains(TroopState::Combating(combat_type)) by {
        match combat_type {
            CombatTypes::Attacking => {},
            CombatTypes::Defending => {},
            CombatTypes::FightingOverUnoccupiedTerritory => {},
        }
    }
}

/// What a troop is busy with.
#[derive(Debug, Clone, Copy)]
pub struct TroopActivities {
    moving: bool,
    patrolling: bool,
    idle: bool,
    selected: bool,
    deploying: bool,
    combating: Option<CombatTypes>,
}

impl View for TroopActivities {
    type V = Set<TroopState>;

    closed spec fn view(&self) -> Set<TroopState> {
        Set::new(
            |state: TroopState|
                match state {
                    TroopState::Moving => self.moving,
                    TroopState::Patrolling => self.patrolling,
                    TroopState::Idle => self.idle,
                    TroopState::Selected => self.selected,
                    TroopState::Deploying => self.deploying,
                    TroopState::Combating(combat_type) => self.combating == Some(combat_type),
                },
        )
    }
}

impl TroopActivities {
    #[verifier::type_invariant]
    spec fn never_idle_while_moving(&self) -> bool {
        !(self.idle && self.moving)
    }

    /// No activity at all.
    pub fn new() -> (activities: Self)
        ensures
            activities@ == Set::<TroopState>::empty(),
            is_consistent(activities@),
    {
        let activities = TroopActivities {
            moving: false,
            patrolling: false,
            idle: false,
            selected: false,
            deploying: false,
            combating: None,
        };
        assert(activities@ =~= Set::<TroopState>::empty());
        activities
    }

    /// Whether the troop is busy with `state`.
    pub fn contains(&self, state: &TroopState) -> (held: bool)
        ensures
            held == self@.contains(*state),
            is_consistent(self@),
    {
        proof {
            use_type_invariant(self);
        }
        match state {
            TroopState::Moving => self.moving,
            TroopState::Patrolling => self.patrolling,
            TroopState::Idle => self.idle,
            TroopState::Selected => self.selected,
            TroopState::Deploying => self.deploying,
            TroopState::Combating(combat_type) => match self.combating {
                Some(held) => held == *combat_type,
                None => false,
            },
        }
    }

    /// The side that the troop takes in a fight, if it is in one.
    pub fn combat_type(&self) -> (side: Option<CombatTypes>)
        ensures
            match side {
                Some(combat_type) => self@.contains(TroopState::Combating(combat_type)),
                None => !is_combating(self@),
            },
            is_consistent(self@),
    {
        proof {
            use_type_invariant(self);
        }
        self.combating
    }

    /// Takes up `state`, and gives up what does not go with it.
    pub fn insert(&mut self, state: TroopState)
        ensures
            final(self)@ == taking_up(old(self)@, state),
            is_consistent(final(self)@),
    {
        proof {
            use_type_invariant(&*self);
        }
        match state {
            TroopState::Moving => {
                self.idle = false;
                self.moving = true;
            },
            TroopState::Patrolling => {
                self.patrolling = true;
            },
            TroopState::Idle => {
                self.moving = false;
                self.idle = true;
            },
            TroopState::Selected => {
                self.selected = true;
            },
            TroopState::Deploying => {
                self.deploying = true;
            },
            TroopState::Combating(combat_type) => {
                self.combating = Some(combat_type);
            },
        }
        assert(self@ =~= taking_up(old(self)@, state));
    }

    /// Gives up `state`.
    pub fn remove(&mut self, state: &TroopState)
        ensures
            final(self)@ == old(self)@.remove(*state),
            is_consistent(final(self)@),
    {
        proof {
            use_type_invariant(&*self);
        }
        match state {
            TroopState::Moving => {
                self.moving = false;
            },
            TroopState::Patrolling => {
                self.patrolling = false;
            },
            TroopState::Idle => {
                self.idle = false;
            },
            TroopState::Selected => {
                self.selected = false;
            },
            TroopState::Deploying => {
                self.deploying = false;
            },
            TroopState::Combating(combat_type) => {
                if self.combating == Some(*combat_type) {
                    self.combating = None;
                }
            },
        }
        assert(self@ =~= old(self)@.remove(*state));
    }
}

/// The time for which a troop rests between two walks.
pub const DEFAULT_IDLE_TIMER: Duration = 700_000;

/// How many waypoints ahead a patrolling troop looks out for other territories.
pub const FUTURE_INVASION_BUFFER: usize = 9;

/// The surface point that was found under a troop.
pub struct SurfaceContact<P> {
    pub surface_point_metadata: SurfacePointMetadata<P>,
    /// Whether the surface point is land.
    pub is_land: bool,
}

/// How a troop stands to the waypoint that it is heading for.
pub struct WaypointSighting {
    /// Whether there is a direction from the troop to the waypoint, which there
    /// is unless the troop is exactly at the waypoint.
    pub direction_is_defined: bool,
    /// How far the troop is from the waypoint.
    pub distance: Distance,
}

/// What a troop does in a tick about its trajectory.
#[derive(Debug, Clone, Copy, PartialEq, Eq, Structural)]
pub enum MovementStep {
    /// The troop has no trajectory to follow, or rests.
    Rest,
    /// The troop gave up its trajectory, which led into another territory.
    Abort,
    /// The troop gave up a trajectory that has no waypoint left for it.
    Reset,
    /// The troop is at its waypoint and turns to the next, without moving.
    Skip,
    /// The troop is at the last waypoint: it has arrived, without moving.
    Lost,
    /// The troop moves towards its waypoint, at the given speed.
    Move(SpeedType),
}

/// A troop.
pub struct Troop<P> {
    /// The surface point under the troop, as last found.
    pub touching_surface_point: SurfacePointMetadata<P>,
    /// The territory that the troop was sent to.
    pub deployed_to_territory: TerritoryId,
    /// Whether the troop has arrived in the territory that it was sent to.
    pub arrived_to_territory: bool,
    pub surface: Surface,
    /// Whether the troop has come onto another kind of surface, and does not
    /// show it yet.
    pub surface_type_changed: bool,
    pub owner: PlayerStaticInfo,
    pub combat_stats: CombatStats,
    pub troop_activities: TroopActivities,
    pub adopted_speed: SpeedType,
    /// The time that the troop still rests.
    pub idle_timer: Duration,
    pub moving_trajectory_points: Vec<P>,
    pub moving_trajectory_is_set: bool,
    /// Which of the points of the trajectory the troop is heading for.
    pub current_trajectory_point: usize,
    pub initial_orientation_is_set: bool,
    /// Whether the troop was sent somewhere and has not been dealt with on
    /// arrival yet.
    pub waiting_for_deployment_following_action: bool,
    /// The distances of the last search for a way within the territory.
    pub heat_map: HeatMap,
    /// Whether the troop counts among those that fight.
    pub is_in_combatting_group: bool,
}

impl<P: Copy> Troop<P> {
    /// The waypoint, ahead of the one that the troop heads for, over which a
    /// patrolling troop looks out for other territories; none where the troop
    /// does not patrol or its trajectory ends before.
    pub open spec fn future_invasion_waypoint(&self) -> Option<usize> {
        if self.troop_activities@.contains(TroopState::Patrolling) && self.current_trajectory_point
            + FUTURE_INVASION_BUFFER < self.moving_trajectory_points@.len() - 1 {
            Some((self.current_trajectory_point + FUTURE_INVASION_BUFFER) as usize)
        } else {
            None
        }
    }

    /// Whether the trajectory of the troop would soon take it into another
    /// territory: the troop looks out, and the waypoint that it looks at lies
    /// over the territory `territory_ahead`, which is not its own.
    pub open spec fn has_future_invasion(&self, territory_ahead: Option<TerritoryId>) -> bool {
        &&& self.future_invasion_waypoint() is Some
        &&& territory_ahead matches Some(territory_id)
        &&& territory_id@ != self.deployed_to_territory@
    }

    /// Whether the troop is ready to set out on a new walk of its territory: it
    /// patrols, and neither fights nor is on its way nor rests.
    pub open spec fn ready_to_patrol(&self) -> bool {
        &&& !is_combating(self.troop_activities@)
        &&& !self.troop_activities@.contains(TroopState::Moving)
        &&& !self.troop_activities@.contains(TroopState::Idle)
        &&& self.troop_activities@.contains(TroopState::Patrolling)
    }

    /// Whether everything but the activities, the speed and the trajectory of
    /// the troop is the same in `self` and in `other`.
    pub open spec fn same_standing_as(&self, other: &Self) -> bool {
        &&& self.touching_surface_point == other.touching_surface_point
        &&& self.deployed_to_territory == other.deployed_to_territory
        &&& self.arrived_to_territory == other.arrived_to_territory
        &&& self.surface == other.surface
        &&& self.surface_type_changed == other.surface_type_changed
        &&& self.owner == other.owner
        &&& self.combat_stats == other.combat_stats
        &&& self.idle_timer == other.idle_timer
        &&& self.initial_orientation_is_set == other.initial_orientation_is_set
        &&& self.waiting_for_deployment_following_action
            == other.waiting_for_deployment_following_action
        &&& self.heat_map == other.heat_map
        &&& self.is_in_combatting_group == other.is_in_combatting_group
    }

    /// Whether the trajectory of the troop is the same in `self` and in `other`.
    pub open spec fn same_trajectory_as(&self, other: &Self) -> bool {
        &&& self.moving_trajectory_points == other.moving_trajectory_points
        &&& self.moving_trajectory_is_set == other.moving_trajectory_is_set
        &&& self.current_trajectory_point == other.current_trajectory_point
    }

    /// Whether the troop has no trajectory.
    pub open spec fn has_no_trajectory(&self) -> bool {
        &&& self.moving_trajectory_points@ == Seq::<P>::empty()
        &&& !self.moving_trajectory_is_set
        &&& self.current_trajectory_point == 0
    }

    /// The activities of a troop that gives up its trajectory outside a fight: it
    /// is no longer on its way nor sent anywhere, it rests, and it patrols if
    /// `gets_back_to_patrolling`.
    pub open spec fn settled_activities(activities: Set<TroopState>, gets_back_to_patrolling: bool) -> Set<
        TroopState,
    > {
        let resting = activities.remove(TroopState::Moving).remove(TroopState::Deploying).insert(
            TroopState::Idle,
        );
        if gets_back_to_patrolling {
            resting.insert(TroopState::Patrolling)
        } else {
            resting
        }
    }

    /// A fresh troop at `center`: it rests and patrols, at the pace of a patrol,
    /// on land, for nobody yet and in no territory yet.
    pub fn new(center: P) -> (troop: Self)
        ensures
            troop.touching_surface_point.cartesian == center,
            troop.touching_surface_point.lat_long == (0i16, 0i16),
            troop.touching_surface_point.territory_id is None,
            troop.deployed_to_territory@ == Seq::<char>::empty(),
            troop.arrived_to_territory,
            troop.surface == Surface::Land,
            !troop.surface_type_changed,
            troop.owner.player_id == 0,
            troop.combat_stats.opening_fire_on_troop is None,
            troop.combat_stats.cannon.range == super::combat::combat_stats::CANNON_RANGE,
            troop.combat_stats.cannon.cooling_down_counter
                == super::combat::combat_stats::COOL_DOWN_TIMER,
            troop.troop_activities@ == set![TroopState::Idle, TroopState::Patrolling],
            is_consistent(troop.troop_activities@),
            troop.adopted_speed == SpeedType::Patrolling,
            troop.idle_timer == DEFAULT_IDLE_TIMER,
            troop.has_no_trajectory(),
            !troop.initial_orientation_is_set,
            !troop.waiting_for_deployment_following_action,
            troop.heat_map@ == Map::<Coordinates, i32>::empty(),
            !troop.is_in_combatting_group,
    {
        let mut troop_activities = TroopActivities::new();
        troop_activities.insert(TroopState::Idle);
        troop_activities.insert(TroopState::Patrolling);
        assert(troop_activities@ =~= set![TroopState::Idle, TroopState::Patrolling]);
        Troop {
            touching_surface_point: SurfacePoint::get_blank_surface_point_metadata(center),
            deployed_to_territory: String::new(),
            arrived_to_territory: true,
            surface: Surface::Land,
            surface_type_changed: false,
            owner: Player::get_blank_static_info(),
            combat_stats: CombatStats::new(),
            troop_activities,
            adopted_speed: SpeedType::Patrolling,
            idle_timer: DEFAULT_IDLE_TIMER,
            moving_trajectory_points: Vec::new(),
            moving_trajectory_is_set: false,
            current_trajectory_point: 0,
            initial_orientation_is_set: false,
            waiting_for_deployment_following_action: false,
            heat_map: HeatMap::new(),
            is_in_combatting_group: false,
        }
    }

    /// Makes `player` the owner of the troop.
    pub fn set_ownership(&mut self, player: &PlayerStaticInfo)
        ensures
            final(self).owner == *player,
            final(self).same_trajectory_as(old(self)),
            final(self).troop_activities == old(self).troop_activities,
            final(self).adopted_speed == old(self).adopted_speed,
            final(self).touching_surface_point == old(self).touching_surface_point,
            final(self).deployed_to_territory == old(self).deployed_to_territory,
            final(self).arrived_to_territory == old(self).arrived_to_territory,
            final(self).surface == old(self).surface,
            final(self).surface_type_changed == old(self).surface_type_changed,
            final(self).combat_stats == old(self).combat_stats,
            final(self).idle_timer == old(self).idle_timer,
            final(self).initial_orientation_is_set == old(self).initial_orientation_is_set,
            final(self).waiting_for_deployment_following_action == old(self).waiting_for_deployment_following_action,
            final(self).heat_map == old(self).heat_map,
            final(self).is_in_combatting_group == old(self).is_in_combatting_group,
    {
        self.owner = player.clone();
    }

    /// Whether the troop has yet to be turned the way it first faces; from then
    /// on it has not.
    pub fn set_initial_orientation(&mut self) -> (turn: bool)
        ensures
            turn == !old(self).initial_orientation_is_set,
            final(self).initial_orientation_is_set,
            *final(self) == (Troop { initial_orientation_is_set: true, ..*old(self) }),
    {
        if !self.initial_orientation_is_set {
            self.initial_orientation_is_set = true;
            true
        } else {
            false
        }
    }

    /// Takes note of the surface point that was found under the troop. Where
    /// none was found, the troop keeps what it knew. Otherwise it stands on that
    /// surface point, and on land or at sea as the surface point is; where that
    /// is another kind of surface than before, the troop has yet to show it.
    pub fn set_surface_troop(&mut self, surface_point: Option<SurfaceContact<P>>)
        ensures
            match surface_point {
                None => *final(self) == *old(self),
                Some(contact) => {
                    let surface = if contact.is_land {
                        Surface::Land
                    } else {
                        Surface::Sea
                    };
                    *final(self) == (Troop {
                        touching_surface_point: contact.surface_point_metadata,
                        surface,
                        surface_type_changed: old(self).surface_type_changed || old(self).surface
                            != surface,
                        ..*old(self)
                    })
                },
            },
    {
        match surface_point {
            None => {},
            Some(contact) => {
                if contact.is_land && self.surface != Surface::Land {
                    self.surface_type_changed = true;
                    self.surface = Surface::Land;
                } else if !contact.is_land && self.surface != Surface::Sea {
                    self.surface_type_changed = true;
                    self.surface = Surface::Sea;
                }
                self.touching_surface_point = contact.surface_point_metadata;
            },
        }
    }

    /// The kind of surface that the troop has yet to show itself on, if any.
    /// After this it has none to show.
    pub fn check_and_change_mesh(&mut self) -> (shown: Option<Surface>)
        ensures
            shown == if old(self).surface_type_changed {
                Some(old(self).surface)
            } else {
                None
            },
            *final(self) == (Troop { surface_type_changed: false, ..*old(self) }),
    {
        if self.surface_type_changed {
            self.surface_type_changed = false;
            Some(self.surface)
        } else {
            None
        }
    }

    /// Whether the troop is in a fight.
    pub fn troop_is_combatting(&self) -> (combatting: bool)
        ensures
            combatting == is_combating(self.troop_activities@),
            is_consistent(self.troop_activities@),
    {
        self.troop_activities.combat_type().is_some()
    }

    /// Whether the troop is ready to set out on a new walk of its territory.
    pub fn is_ready_to_patrol(&self) -> (ready: bool)
        ensures
            ready == self.ready_to_patrol(),
            is_consistent(self.troop_activities@),
    {
        !self.troop_is_combatting() && !self.troop_activities.contains(&TroopState::Moving)
            && !self.troop_activities.contains(&TroopState::Idle) && self.troop_activities.contains(
            &TroopState::Patrolling,
        )
    }

    /// Sets the troop out for the cell `moving_to`, if it is ready to set out on a
    /// new walk of its territory; says whether it was.
    ///
    /// The way starts at the cell under the troop and stays within the territory
    /// that the troop was sent to, as `is_in_the_frontiers_trajectory` says of
    /// `base_geodesic_trajectory`, whose waypoints lie over `trajectory_cells`.
    /// The distances of the search, or none where there was no search, are those
    /// of the troop from then on.
    pub fn maybe_populate_trajectory_points(
        &mut self,
        base_geodesic_trajectory: &[P; NUM_OF_WAYPOINTS],
        trajectory_cells: &[Option<Coordinates>; NUM_OF_WAYPOINTS],
        moving_to: Coordinates,
        virtual_planet: &VirtualPlanet<P>,
    ) -> (populated: bool)
        requires
            old(self).ready_to_patrol() ==> {
                &&& virtual_planet.coordinate_map.wf()
                &&& virtual_planet.coordinate_map.contains(old(self).touching_surface_point.lat_long)
                &&& virtual_planet.coordinate_map.contains(moving_to)
            },
        ensures
            populated == old(self).ready_to_patrol(),
            !populated ==> *final(self) == *old(self),
            populated ==> {
                &&& final(self).moving_trajectory_points@.len() > 0
                &&& is_in_the_frontiers_trajectory(
                    final(self).moving_trajectory_points@,
                    Map::<Coordinates, i32>::empty(),
                    final(self).heat_map@,
                    base_geodesic_trajectory@,
                    trajectory_cells@,
                    old(self).touching_surface_point.lat_long,
                    moving_to,
                    old(self).deployed_to_territory@,
                    &virtual_planet.coordinate_map,
                )
                &&& final(self).moving_trajectory_is_set
                &&& final(self).current_trajectory_point == 0
                &&& final(self).troop_activities@ == old(self).troop_activities@.insert(
                    TroopState::Moving,
                )
                &&& final(self).adopted_speed == old(self).adopted_speed
                &&& final(self).same_standing_except_heat_map_as(old(self))
            },
            is_consistent(final(self).troop_activities@),
    {
        if self.is_ready_to_patrol() {
            self.heat_map.clear();
            self.moving_trajectory_points = CoordinatesSystem::get_in_the_frontiers_trajectory(
                base_geodesic_trajectory,
                trajectory_cells,
                self.touching_surface_point.lat_long,
                moving_to,
                &self.deployed_to_territory,
                &virtual_planet.coordinate_map,
                &mut self.heat_map,
            );
            self.current_trajectory_point = 0;
            self.moving_trajectory_is_set = true;
            self.troop_activities.insert(TroopState::Moving);
            assert(self.troop_activities@ =~= old(self).troop_activities@.insert(TroopState::Moving));
            true
        } else {
            false
        }
    }

    /// Whether everything but the activities, the speed, the trajectory and the
    /// distances of the last search of the troop is the same in `self` and in
    /// `other`.
    pub open spec fn same_standing_except_heat_map_as(&self, other: &Self) -> bool {
        &&& self.touching_surface_point == other.touching_surface_point
        &&& self.deployed_to_territory == other.deployed_to_territory
        &&& self.arrived_to_territory == other.arrived_to_territory
        &&& self.surface == other.surface
        &&& self.surface_type_changed == other.surface_type_changed
        &&& self.owner == other.owner
        &&& self.combat_stats == other.combat_stats
        &&& self.idle_timer == other.idle_timer
        &&& self.initial_orientation_is_set == other.initial_orientation_is_set
        &&& self.waiting_for_deployment_following_action
            == other.waiting_for_deployment_following_action
        &&& self.is_in_combatting_group == other.is_in_combatting_group
    }

    /// The waypoint over which the troop looks out for other territories, if it
    /// looks out.
    pub fn get_future_invasion_waypoint(&self) -> (waypoint: Option<usize>)
        ensures
            waypoint == self.future_invasion_waypoint(),
    {
        let length = self.moving_trajectory_points.len();
        if self.troop_activities.contains(&TroopState::Patrolling) && self.current_trajectory_point
            < length && FUTURE_INVASION_BUFFER + 1 < length - self.current_trajectory_point {
            Some(self.current_trajectory_point + FUTURE_INVASION_BUFFER)
        } else {
            None
        }
    }

    /// Whether the trajectory of the troop would soon take it into another
    /// territory, given the territory that lies under the waypoint over which
    /// the troop looks out.
    pub fn have_future_invasion_in_the_trajectory(&self, territory_ahead: &Option<TerritoryId>) -> (invasion:
        bool)
        ensures
            invasion == self.has_future_invasion(*territory_ahead),
    {
        if self.get_future_invasion_waypoint().is_none() {
            return false;
        }
        match territory_ahead {
            Some(territory_id) => !same_territory(territory_id, &self.deployed_to_territory),
            None => false,
        }
    }

    /// Drops the trajectory of the troop.
    pub fn reset_trajectory(&mut self)
        ensures
            final(self).has_no_trajectory(),
            final(self).troop_activities == old(self).troop_activities,
            final(self).adopted_speed == old(self).adopted_speed,
            final(self).same_standing_as(old(self)),
    {
        self.current_trajectory_point = 0;
        self.moving_trajectory_points = Vec::new();
        self.moving_trajectory_is_set = false;
    }

    /// Ends a move outside a fight: the troop drops its trajectory, is no longer
    /// on its way nor sent anywhere, rests, goes back to the pace of a patrol,
    /// and patrols again if `gets_back_to_patrolling`.
    pub fn no_combat_reset_trajectory(&mut self, gets_back_to_patrolling: bool)
        ensures
            final(self).has_no_trajectory(),
            final(self).troop_activities@ == Self::settled_activities(
                old(self).troop_activities@,
                gets_back_to_patrolling,
            ),
            is_consistent(final(self).troop_activities@),
            final(self).adopted_speed == SpeedType::Patrolling,
            final(self).same_standing_as(old(self)),
    {
        self.troop_activities.remove(&TroopState::Moving);
        self.troop_activities.remove(&TroopState::Deploying);
        self.troop_activities.insert(TroopState::Idle);
        if gets_back_to_patrolling {
            self.troop_activities.insert(TroopState::Patrolling);
        }
        assert(self.troop_activities@ =~= Self::settled_activities(
            old(self).troop_activities@,
            gets_back_to_patrolling,
        ));
        self.adopted_speed = SpeedType::Patrolling;
        self.reset_trajectory();
    }

    /// What the troop does about its trajectory in a tick.
    ///
    /// A troop without trajectory, or one that rests, does nothing. A troop
    /// whose trajectory would soon take it into another territory gives the
    /// trajectory up. A troop that is exactly at its waypoint turns to the next,
    /// or has arrived if there is none. Any other troop moves towards its
    /// waypoint; if it was within `WAYPOINT_TOLERANCE` of the waypoint it turns
    /// to the next, or has arrived if there is none. A troop that has arrived
    /// ends its move, and patrols on if it patrolled.
    pub fn maybe_move_along_the_trajectory_and_set_orientation(
        &mut self,
        territory_ahead: &Option<TerritoryId>,
        sighting: &WaypointSighting,
    ) -> (step: MovementStep)
        ensures
            step == old(self).movement_step(*territory_ahead, *sighting),
            final(self).same_standing_as(old(self)),
            is_consistent(final(self).troop_activities@),
            match step {
                MovementStep::Rest => *final(self) == *old(self),
                MovementStep::Abort => {
                    &&& final(self).has_no_trajectory()
                    &&& final(self).troop_activities@ == Self::settled_activities(
                        old(self).troop_activities@,
                        true,
                    )
                    &&& final(self).adopted_speed == SpeedType::Patrolling
                },
                MovementStep::Reset => {
                    &&& final(self).has_no_trajectory()
                    &&& final(self).troop_activities == old(self).troop_activities
                    &&& final(self).adopted_speed == old(self).adopted_speed
                },
                MovementStep::Skip => *final(self) == (Troop {
                    current_trajectory_point: (old(self).current_trajectory_point + 1) as usize,
                    ..*old(self)
                }),
                MovementStep::Lost => old(self).arrives(final(self)),
                MovementStep::Move(speed) => {
                    &&& speed == old(self).adopted_speed
                    &&& if sighting.distance >= WAYPOINT_TOLERANCE {
                        *final(self) == *old(self)
                    } else if old(self).is_on_the_last_waypoint() {
                        old(self).arrives(final(self))
                    } else {
                        *final(self) == (Troop {
                            current_trajectory_point: (old(self).current_trajectory_point
                                + 1) as usize,
                            ..*old(self)
                        })
                    }
                },
            },
    {
        let idle = self.troop_activities.contains(&TroopState::Idle);
        if !self.moving_trajectory_is_set || idle {
            return MovementStep::Rest;
        }
        if self.have_future_invasion_in_the_trajectory(territory_ahead) {
            self.no_combat_reset_trajectory(true);
            return MovementStep::Abort;
        }
        if self.current_trajectory_point >= self.moving_trajectory_points.len() {
            self.reset_trajectory();
            return MovementStep::Reset;
        }
        let on_the_last_waypoint = self.current_trajectory_point
            == self.moving_trajectory_points.len() - 1;
        let patrolling = self.troop_activities.contains(&TroopState::Patrolling);
        if !sighting.direction_is_defined {
            if !on_the_last_waypoint {
                self.current_trajectory_point = self.current_trajectory_point + 1;
                return MovementStep::Skip;
            }
            self.no_combat_reset_trajectory(patrolling);
            return MovementStep::Lost;
        }
        let speed = self.adopted_speed;
        let too_close_to_the_waypoint = sighting.distance < WAYPOINT_TOLERANCE;
        if too_close_to_the_waypoint {
            if on_the_last_waypoint {
                self.no_combat_reset_trajectory(patrolling);
            } else {
                self.current_trajectory_point = self.current_trajectory_point + 1;
            }
        }
        MovementStep::Move(speed)
    }

    /// Whether the troop heads for the last waypoint of its trajectory.
    pub open spec fn is_on_the_last_waypoint(&self) -> bool {
        self.current_trajectory_point == self.moving_trajectory_points@.len() - 1
    }

    /// Whether `after` is the troop once it has arrived at the end of its
    /// trajectory: without trajectory, at rest, at the pace of a patrol, and
    /// patrolling on if it patrolled.
    pub open spec fn arrives(&self, after: &Self) -> bool {
        &&& after.has_no_trajectory()
        &&& after.troop_activities@ == Self::settled_activities(
            self.troop_activities@,
            self.troop_activities@.contains(TroopState::Patrolling),
        )
        &&& after.adopted_speed == SpeedType::Patrolling
    }

    /// What the troop does about its trajectory in a tick, by what it is busy
    /// with, what lies ahead and how it stands to its waypoint.
    pub open spec fn movement_step(&self, territory_ahead: Option<TerritoryId>, sighting: WaypointSighting) -> MovementStep {
        if !self.moving_trajectory_is_set || self.troop_activities@.contains(TroopState::Idle) {
            MovementStep::Rest
        } else if self.has_future_invasion(territory_ahead) {
            MovementStep::Abort
        } else if self.current_trajectory_point >= self.moving_trajectory_points@.len() {
            MovementStep::Reset
        } else if !sighting.direction_is_defined {
            if self.is_on_the_last_waypoint() {
                MovementStep::Lost
            } else {
                MovementStep::Skip
            }
        } else {
            MovementStep::Move(self.adopted_speed)
        }
    }

    /// Lets `delta` of the rest of the troop pass, if it rests. A troop whose
    /// rest is over rests no longer, and its next rest will last
    /// `DEFAULT_IDLE_TIMER`.
    pub fn decrease_idle_timer_if_idling(&mut self, delta: Duration)
        ensures
            final(self).same_trajectory_as(old(self)),
            final(self).adopted_speed == old(self).adopted_speed,
            is_consistent(final(self).troop_activities@),
            ({
                let idle = old(self).troop_activities@.contains(TroopState::Idle);
                let left: int = if idle {
                    old(self).idle_timer - delta
                } else {
                    old(self).idle_timer as int
                };
                &&& final(self).idle_timer == if left <= 0 {
                    DEFAULT_IDLE_TIMER as int
                } else {
                    left
                }
                &&& final(self).troop_activities@ == if left <= 0 {
                    old(self).troop_activities@.remove(TroopState::Idle)
                } else {
                    old(self).troop_activities@
                }
            }),
            final(self).touching_surface_point == old(self).touching_surface_point,
            final(self).deployed_to_territory == old(self).deployed_to_territory,
            final(self).arrived_to_territory == old(self).arrived_to_territory,
            final(self).surface == old(self).surface,
            final(self).surface_type_changed == old(self).surface_type_changed,
            final(self).owner == old(self).owner,
            final(self).combat_stats == old(self).combat_stats,
            final(self).initial_orientation_is_set == old(self).initial_orientation_is_set,
            final(self).waiting_for_deployment_following_action == old(self).waiting_for_deployment_following_action,
            final(self).heat_map == old(self).heat_map,
            final(self).is_in_combatting_group == old(self).is_in_combatting_group,
    {
        let idle = self.troop_activities.contains(&TroopState::Idle);
        if (idle && delta >= self.idle_timer) || self.idle_timer == 0 {
            self.idle_timer = DEFAULT_IDLE_TIMER;
            self.troop_activities.remove(&TroopState::Idle);
        } else if idle {
            self.idle_timer = self.idle_timer - delta;
        }
    }
}

} // verus!
