use expansionists::globe::coordinates_system::coordinates_system::NUM_OF_WAYPOINTS;
use expansionists::globe::coordinates_system::surface_point::{Coordinates, SurfacePointMetadata};
use expansionists::globe::coordinates_system::virtual_planet::VirtualPlanet;
use expansionists::globe::territories::territory::{
    Continent, Territories, Territory, TerritoryState,
};
use expansionists::measures::WAYPOINT_TOLERANCE;
use expansionists::player::player::Player;
use expansionists::troops::combat::combat_stats::CombatTypes;
use expansionists::troops::deployment::DeploymentNextAction;
use expansionists::troops::speed::SpeedType;
use expansionists::troops::surface::Surface;
use expansionists::troops::troop::{
    MovementStep, SurfaceContact, Troop, TroopActivities, TroopState, WaypointSighting,
    DEFAULT_IDLE_TIMER, FUTURE_INVASION_BUFFER,
};

const ALL_STATES: [TroopState; 8] = [
    TroopState::Moving,
    TroopState::Patrolling,
    TroopState::Idle,
    TroopState::Selected,
    TroopState::Deploying,
    TroopState::Combating(CombatTypes::Attacking),
    TroopState::Combating(CombatTypes::Defending),
    TroopState::Combating(CombatTypes::FightingOverUnoccupiedTerritory),
];

fn states_of(activities: &TroopActivities) -> Vec<TroopState> {
    ALL_STATES
        .iter()
        .copied()
        .filter(|state| activities.contains(state))
        .collect()
}

fn assert_consistent(activities: &TroopActivities) {
    assert!(
        !(activities.contains(&TroopState::Idle) && activities.contains(&TroopState::Moving))
    );
    let sides = CombatTypes::iter()
        .iter()
        .filter(|side| activities.contains(&TroopState::Combating(**side)))
        .count();
    assert!(sides <= 1);
}

fn geodesic() -> [Coordinates; NUM_OF_WAYPOINTS] {
    let mut trajectory = [(0, 0); NUM_OF_WAYPOINTS];
    for (index, point) in trajectory.iter_mut().enumerate() {
        *point = (100, index as i16);
    }
    trajectory
}

fn far() -> WaypointSighting {
    WaypointSighting {
        direction_is_defined: true,
        distance: 5 * WAYPOINT_TOLERANCE,
    }
}

fn near() -> WaypointSighting {
    WaypointSighting {
        direction_is_defined: true,
        distance: WAYPOINT_TOLERANCE - 1,
    }
}

fn at() -> WaypointSighting {
    WaypointSighting {
        direction_is_defined: false,
        distance: 0,
    }
}

fn planet(names: &[&str]) -> VirtualPlanet<Coordinates> {
    let mut territories = Territories::new();
    for name in names {
        territories.insert(
            name.to_string(),
            Territory::get_base_territory(name, Continent::Europe, None),
        );
    }
    let mut planet = VirtualPlanet::new(territories);
    let mut cartesians = Vec::new();
    for latitude in 0..4 {
        for longitude in 0..4 {
            cartesians.push((latitude, longitude));
        }
    }
    planet.populate_surface_points_and_coordinate_map(4, 4, &cartesians);
    planet
}

/// Sets the troop out for the cell (3, 3) along a geodesic trajectory that is
/// over no cell of the grid.
fn set_out(troop: &mut Troop<Coordinates>) -> bool {
    troop.maybe_populate_trajectory_points(
        &geodesic(),
        &[None; NUM_OF_WAYPOINTS],
        (3, 3),
        &planet(&["alps", "tundra"]),
    )
}

fn troop_of(player_id: i32, territory: &str) -> Troop<Coordinates> {
    let mut troop = Troop::new((0, 0));
    let mut owner = Player::get_blank_static_info();
    owner.player_id = player_id;
    troop.set_ownership(&owner);
    troop.deployed_to_territory = territory.to_string();
    troop
}

fn patrol_ready() -> Troop<Coordinates> {
    let mut troop = troop_of(1, "alps");
    troop.troop_activities.remove(&TroopState::Idle);
    troop
}

#[test]
fn activities_are_a_set_of_states() {
    let mut activities = TroopActivities::new();
    assert_eq!(states_of(&activities), vec![]);
    activities.insert(TroopState::Patrolling);
    activities.insert(TroopState::Selected);
    activities.insert(TroopState::Patrolling);
    assert_eq!(
        states_of(&activities),
        vec![TroopState::Patrolling, TroopState::Selected]
    );
    activities.remove(&TroopState::Patrolling);
    activities.remove(&TroopState::Deploying);
    assert_eq!(states_of(&activities), vec![TroopState::Selected]);
}

#[test]
fn activities_never_hold_idle_and_moving_together() {
    let mut activities = TroopActivities::new();
    activities.insert(TroopState::Idle);
    activities.insert(TroopState::Moving);
    assert_eq!(states_of(&activities), vec![TroopState::Moving]);
    activities.insert(TroopState::Idle);
    assert_eq!(states_of(&activities), vec![TroopState::Idle]);
}

#[test]
fn activities_never_hold_two_sides_of_a_fight() {
    let mut activities = TroopActivities::new();
    assert_eq!(activities.combat_type(), None);
    activities.insert(TroopState::Combating(CombatTypes::Attacking));
    activities.insert(TroopState::Combating(CombatTypes::Defending));
    assert_eq!(
        states_of(&activities),
        vec![TroopState::Combating(CombatTypes::Defending)]
    );
    assert_eq!(activities.combat_type(), Some(CombatTypes::Defending));
    activities.remove(&TroopState::Combating(CombatTypes::Attacking));
    assert_eq!(activities.combat_type(), Some(CombatTypes::Defending));
    activities.remove(&TroopState::Combating(CombatTypes::Defending));
    assert_eq!(activities.combat_type(), None);
}

#[test]
fn activities_stay_consistent_under_every_sequence_of_three_changes() {
    for first in 0..16 {
        for second in 0..16 {
            for third in 0..16 {
                let mut activities = TroopActivities::new();
                for change in [first, second, third] {
                    let state = ALL_STATES[change % 8];
                    if change < 8 {
                        activities.insert(state);
                        assert!(activities.contains(&state));
                    } else {
                        activities.remove(&state);
                        assert!(!activities.contains(&state));
                    }
                    assert_consistent(&activities);
                }
            }
        }
    }
}

#[test]
fn a_fresh_troop_rests_and_patrols() {
    let troop: Troop<Coordinates> = Troop::new((3, 3));
    assert_eq!(
        states_of(&troop.troop_activities),
        vec![TroopState::Patrolling, TroopState::Idle]
    );
    assert_eq!(troop.touching_surface_point.cartesian, (3, 3));
    assert_eq!(troop.touching_surface_point.lat_long, (0, 0));
    assert_eq!(troop.touching_surface_point.territory_id, None);
    assert_eq!(troop.deployed_to_territory, "");
    assert!(troop.arrived_to_territory);
    assert_eq!(troop.surface, Surface::Land);
    assert!(!troop.surface_type_changed);
    assert_eq!(troop.owner.player_id, 0);
    assert_eq!(troop.adopted_speed, SpeedType::Patrolling);
    assert_eq!(troop.idle_timer, DEFAULT_IDLE_TIMER);
    assert_eq!(DEFAULT_IDLE_TIMER, 700_000);
    assert!(troop.moving_trajectory_points.is_empty());
    assert!(!troop.moving_trajectory_is_set);
    assert_eq!(troop.current_trajectory_point, 0);
    assert!(!troop.waiting_for_deployment_following_action);
    assert!(!troop.is_in_combatting_group);
    assert!(!troop.troop_is_combatting());
    assert_eq!(troop.heat_map.get((0, 0)), None);
}

#[test]
fn initial_orientation_is_set_once() {
    let mut troop: Troop<Coordinates> = Troop::new((0, 0));
    assert!(troop.set_initial_orientation());
    assert!(!troop.set_initial_orientation());
    assert!(troop.initial_orientation_is_set);
}

#[test]
fn surface_contact_updates_the_surface() {
    let mut troop: Troop<Coordinates> = Troop::new((0, 0));
    troop.set_surface_troop(None);
    assert_eq!(troop.surface, Surface::Land);
    assert!(!troop.surface_type_changed);
    assert_eq!(troop.check_and_change_mesh(), None);
    troop.set_surface_troop(Some(SurfaceContact {
        surface_point_metadata: SurfacePointMetadata {
            cartesian: (1, 1),
            lat_long: (4, 5),
            territory_id: None,
        },
        is_land: false,
    }));
    assert_eq!(troop.surface, Surface::Sea);
    assert!(troop.surface_type_changed);
    assert_eq!(troop.touching_surface_point.lat_long, (4, 5));
    assert_eq!(troop.check_and_change_mesh(), Some(Surface::Sea));
    assert_eq!(troop.check_and_change_mesh(), None);
    troop.set_surface_troop(Some(SurfaceContact {
        surface_point_metadata: SurfacePointMetadata {
            cartesian: (2, 2),
            lat_long: (4, 6),
            territory_id: Some("alps".to_string()),
        },
        is_land: false,
    }));
    assert!(!troop.surface_type_changed);
    assert_eq!(troop.touching_surface_point.territory_id, Some("alps".to_string()));
    troop.set_surface_troop(Some(SurfaceContact {
        surface_point_metadata: SurfacePointMetadata {
            cartesian: (2, 2),
            lat_long: (4, 7),
            territory_id: Some("alps".to_string()),
        },
        is_land: true,
    }));
    assert_eq!(troop.surface, Surface::Land);
    assert_eq!(troop.check_and_change_mesh(), Some(Surface::Land));
}

#[test]
fn a_resting_troop_does_not_set_out() {
    let mut troop: Troop<Coordinates> = Troop::new((0, 0));
    assert!(!troop.is_ready_to_patrol());
    assert!(!set_out(&mut troop));
    assert!(!troop.moving_trajectory_is_set);
    assert!(troop.moving_trajectory_points.is_empty());
    assert_consistent(&troop.troop_activities);
}

#[test]
fn a_patrolling_troop_sets_out_once_its_rest_is_over() {
    let mut troop: Troop<Coordinates> = Troop::new((0, 0));
    troop.decrease_idle_timer_if_idling(DEFAULT_IDLE_TIMER);
    assert!(troop.is_ready_to_patrol());
    assert!(set_out(&mut troop));
    assert!(troop.moving_trajectory_is_set);
    assert_eq!(troop.moving_trajectory_points, geodesic().to_vec());
    assert_eq!(
        states_of(&troop.troop_activities),
        vec![TroopState::Moving, TroopState::Patrolling]
    );
    assert!(!troop.maybe_populate_trajectory_points(
        &[(1, 1); NUM_OF_WAYPOINTS],
        &[None; NUM_OF_WAYPOINTS],
        (2, 2),
        &planet(&["alps"]),
    ));
    assert_eq!(troop.moving_trajectory_points, geodesic().to_vec());
}

#[test]
fn a_patrol_goes_round_other_territories() {
    let mut planet = planet(&["alps", "tundra"]);
    for cell in [(1, 1), (1, 2), (2, 1), (2, 2)] {
        planet.match_surface_point_and_territory(cell, &"tundra".to_string());
    }
    let mut troop = patrol_ready();
    troop.touching_surface_point.lat_long = (0, 1);
    troop.heat_map.insert((3, 0), 9);
    let mut cells = [Some((0, 1)); NUM_OF_WAYPOINTS];
    cells[12] = Some((1, 2));
    assert!(troop.maybe_populate_trajectory_points(&geodesic(), &cells, (3, 2), &planet));
    assert_eq!(troop.moving_trajectory_points, vec![(0, 1), (3, 2)]);
    assert_eq!(troop.current_trajectory_point, 0);
    assert_eq!(troop.heat_map.get((0, 1)), Some(0));
    assert_eq!(troop.heat_map.get((3, 2)), Some(1));
    assert_eq!(troop.heat_map.get((3, 1)), Some(1));
    assert_eq!(troop.heat_map.get((1, 1)), Some(i32::MAX));
    // The search ended before it came to this cell, and the distance that
    // an earlier search had left for it is gone.
    assert_eq!(troop.heat_map.get((3, 0)), None);
    assert!(troop.troop_activities.contains(&TroopState::Moving));
}

#[test]
fn a_patrol_within_the_own_territory_forgets_the_last_search() {
    let mut troop = patrol_ready();
    troop.heat_map.insert((3, 0), 9);
    assert!(set_out(&mut troop));
    assert_eq!(troop.heat_map.get((3, 0)), None);
}

#[test]
fn a_fighting_troop_does_not_set_out_on_a_patrol() {
    let mut troop = patrol_ready();
    troop
        .troop_activities
        .insert(TroopState::Combating(CombatTypes::Attacking));
    assert!(!set_out(&mut troop));
    assert!(!troop.moving_trajectory_is_set);
}

#[test]
fn idle_timer_counts_down_while_idle_only() {
    let mut troop: Troop<Coordinates> = Troop::new((0, 0));
    troop.decrease_idle_timer_if_idling(300_000);
    assert_eq!(troop.idle_timer, 400_000);
    assert!(troop.troop_activities.contains(&TroopState::Idle));
    troop.decrease_idle_timer_if_idling(399_999);
    assert_eq!(troop.idle_timer, 1);
    assert!(troop.troop_activities.contains(&TroopState::Idle));
    troop.decrease_idle_timer_if_idling(1);
    assert_eq!(troop.idle_timer, DEFAULT_IDLE_TIMER);
    assert!(!troop.troop_activities.contains(&TroopState::Idle));
    troop.decrease_idle_timer_if_idling(600_000);
    assert_eq!(troop.idle_timer, DEFAULT_IDLE_TIMER);
    assert!(troop.troop_activities.contains(&TroopState::Patrolling));
}

#[test]
fn idle_timer_expires_when_more_time_passes_than_is_left() {
    let mut troop: Troop<Coordinates> = Troop::new((0, 0));
    troop.decrease_idle_timer_if_idling(5_000_000);
    assert_eq!(troop.idle_timer, DEFAULT_IDLE_TIMER);
    assert!(!troop.troop_activities.contains(&TroopState::Idle));
}

#[test]
fn a_troop_without_trajectory_or_at_rest_does_not_move() {
    let mut troop = patrol_ready();
    assert_eq!(
        troop.maybe_move_along_the_trajectory_and_set_orientation(&None, &far()),
        MovementStep::Rest
    );
    set_out(&mut troop);
    troop.troop_activities.remove(&TroopState::Moving);
    troop.troop_activities.insert(TroopState::Idle);
    assert_eq!(
        troop.maybe_move_along_the_trajectory_and_set_orientation(&None, &near()),
        MovementStep::Rest
    );
    assert_eq!(troop.current_trajectory_point, 0);
    assert!(troop.moving_trajectory_is_set);
}

#[test]
fn a_troop_moves_towards_a_far_waypoint_without_advancing() {
    let mut troop = patrol_ready();
    set_out(&mut troop);
    assert_eq!(
        troop.maybe_move_along_the_trajectory_and_set_orientation(&None, &far()),
        MovementStep::Move(SpeedType::Patrolling)
    );
    assert_eq!(troop.current_trajectory_point, 0);
    assert_eq!(
        troop.maybe_move_along_the_trajectory_and_set_orientation(
            &None,
            &WaypointSighting {
                direction_is_defined: true,
                distance: WAYPOINT_TOLERANCE
            }
        ),
        MovementStep::Move(SpeedType::Patrolling)
    );
    assert_eq!(troop.current_trajectory_point, 0);
}

#[test]
fn a_troop_advances_when_within_tolerance_of_its_waypoint() {
    let mut troop = patrol_ready();
    set_out(&mut troop);
    assert_eq!(
        troop.maybe_move_along_the_trajectory_and_set_orientation(&None, &near()),
        MovementStep::Move(SpeedType::Patrolling)
    );
    assert_eq!(troop.current_trajectory_point, 1);
    assert_eq!(
        troop.maybe_move_along_the_trajectory_and_set_orientation(&None, &at()),
        MovementStep::Skip
    );
    assert_eq!(troop.current_trajectory_point, 2);
    assert!(troop.moving_trajectory_is_set);
}

#[test]
fn a_patrol_ends_at_the_last_waypoint_and_goes_on_patrolling() {
    let mut troop = patrol_ready();
    set_out(&mut troop);
    for waypoint in 0..(NUM_OF_WAYPOINTS - 1) {
        assert_eq!(troop.current_trajectory_point, waypoint);
        assert_eq!(
            troop.maybe_move_along_the_trajectory_and_set_orientation(&None, &near()),
            MovementStep::Move(SpeedType::Patrolling)
        );
        assert_consistent(&troop.troop_activities);
    }
    assert_eq!(troop.current_trajectory_point, NUM_OF_WAYPOINTS - 1);
    assert_eq!(
        troop.maybe_move_along_the_trajectory_and_set_orientation(&None, &near()),
        MovementStep::Move(SpeedType::Patrolling)
    );
    assert!(!troop.moving_trajectory_is_set);
    assert!(troop.moving_trajectory_points.is_empty());
    assert_eq!(troop.current_trajectory_point, 0);
    assert_eq!(
        states_of(&troop.troop_activities),
        vec![TroopState::Patrolling, TroopState::Idle]
    );
    assert_eq!(troop.adopted_speed, SpeedType::Patrolling);
}

#[test]
fn a_troop_exactly_at_the_last_waypoint_has_arrived() {
    let mut troop = patrol_ready();
    set_out(&mut troop);
    troop.current_trajectory_point = NUM_OF_WAYPOINTS - 1;
    assert_eq!(
        troop.maybe_move_along_the_trajectory_and_set_orientation(&None, &at()),
        MovementStep::Lost
    );
    assert!(!troop.moving_trajectory_is_set);
    assert_eq!(
        states_of(&troop.troop_activities),
        vec![TroopState::Patrolling, TroopState::Idle]
    );
}

#[test]
fn a_trajectory_without_waypoint_left_is_reset() {
    let mut troop = patrol_ready();
    set_out(&mut troop);
    troop.current_trajectory_point = NUM_OF_WAYPOINTS;
    assert_eq!(
        troop.maybe_move_along_the_trajectory_and_set_orientation(&None, &far()),
        MovementStep::Reset
    );
    assert!(!troop.moving_trajectory_is_set);
    assert!(troop.moving_trajectory_points.is_empty());
    assert_eq!(troop.current_trajectory_point, 0);
    assert!(troop.troop_activities.contains(&TroopState::Moving));
}

#[test]
fn a_patrol_looks_nine_waypoints_ahead() {
    assert_eq!(FUTURE_INVASION_BUFFER, 9);
    let mut troop = patrol_ready();
    assert_eq!(troop.get_future_invasion_waypoint(), None);
    set_out(&mut troop);
    assert_eq!(troop.get_future_invasion_waypoint(), Some(9));
    troop.current_trajectory_point = 19;
    assert_eq!(troop.get_future_invasion_waypoint(), Some(28));
    troop.current_trajectory_point = 20;
    assert_eq!(troop.get_future_invasion_waypoint(), None);
    troop.current_trajectory_point = 0;
    troop.troop_activities.remove(&TroopState::Patrolling);
    assert_eq!(troop.get_future_invasion_waypoint(), None);
}

#[test]
fn a_patrol_that_would_invade_another_territory_is_aborted() {
    let mut troop = patrol_ready();
    set_out(&mut troop);
    assert!(!troop.have_future_invasion_in_the_trajectory(&None));
    assert!(!troop.have_future_invasion_in_the_trajectory(&Some("alps".to_string())));
    assert!(troop.have_future_invasion_in_the_trajectory(&Some("tundra".to_string())));
    assert_eq!(
        troop.maybe_move_along_the_trajectory_and_set_orientation(
            &Some("alps".to_string()),
            &far()
        ),
        MovementStep::Move(SpeedType::Patrolling)
    );
    assert_eq!(
        troop.maybe_move_along_the_trajectory_and_set_orientation(
            &Some("tundra".to_string()),
            &far()
        ),
        MovementStep::Abort
    );
    assert!(!troop.moving_trajectory_is_set);
    assert!(troop.moving_trajectory_points.is_empty());
    assert_eq!(
        states_of(&troop.troop_activities),
        vec![TroopState::Patrolling, TroopState::Idle]
    );
}

#[test]
fn a_sent_troop_does_not_look_out_for_other_territories() {
    let mut planet = planet(&["alps", "tundra"]);
    let mut troop = troop_of(1, "alps");
    troop.set_order_to_move_to(
        &"t1".to_string(),
        &geodesic(),
        &"tundra".to_string(),
        &mut planet,
    );
    assert_eq!(troop.get_future_invasion_waypoint(), None);
    assert_eq!(
        troop.maybe_move_along_the_trajectory_and_set_orientation(
            &Some("alps".to_string()),
            &far()
        ),
        MovementStep::Move(SpeedType::FightOrFlight)
    );
    assert!(troop.moving_trajectory_is_set);
}

#[test]
fn no_combat_reset_ends_a_move() {
    let mut troop = patrol_ready();
    set_out(&mut troop);
    troop.troop_activities.insert(TroopState::Deploying);
    troop.troop_activities.remove(&TroopState::Patrolling);
    troop.adopted_speed = SpeedType::FightOrFlight;
    troop.current_trajectory_point = 12;
    troop.no_combat_reset_trajectory(false);
    assert_eq!(states_of(&troop.troop_activities), vec![TroopState::Idle]);
    assert_eq!(troop.adopted_speed, SpeedType::Patrolling);
    assert!(!troop.moving_trajectory_is_set);
    assert_eq!(troop.current_trajectory_point, 0);
    troop.no_combat_reset_trajectory(true);
    assert_eq!(
        states_of(&troop.troop_activities),
        vec![TroopState::Patrolling, TroopState::Idle]
    );
}

#[test]
fn reset_trajectory_keeps_the_activities() {
    let mut troop = patrol_ready();
    set_out(&mut troop);
    troop.current_trajectory_point = 3;
    troop.reset_trajectory();
    assert!(troop.moving_trajectory_points.is_empty());
    assert!(!troop.moving_trajectory_is_set);
    assert_eq!(troop.current_trajectory_point, 0);
    assert_eq!(
        states_of(&troop.troop_activities),
        vec![TroopState::Moving, TroopState::Patrolling]
    );
}

#[test]
fn selecting_and_deselecting() {
    let mut troop: Troop<Coordinates> = Troop::new((0, 0));
    troop.select_troop();
    assert!(troop.troop_activities.contains(&TroopState::Selected));
    assert!(troop.troop_activities.contains(&TroopState::Idle));
    troop.deselect_troop();
    assert!(!troop.troop_activities.contains(&TroopState::Selected));
    assert!(troop.troop_activities.contains(&TroopState::Patrolling));
}

#[test]
fn an_order_to_move_sends_the_troop_along_the_geodesic_trajectory() {
    let mut planet = planet(&["alps", "tundra"]);
    planet
        .get_mut_territory_from_virtual_planet(&"alps".to_string())
        .add_territory_deployment(&"t1".to_string(), 1);
    planet
        .get_mut_territory_from_virtual_planet(&"alps".to_string())
        .inform_troop_arrived(&"t1".to_string(), 1);
    let mut troop = troop_of(1, "alps");
    troop.heat_map.insert((1, 1), 5);
    troop.current_trajectory_point = 4;
    troop.set_order_to_move_to(
        &"t1".to_string(),
        &geodesic(),
        &"tundra".to_string(),
        &mut planet,
    );
    assert_eq!(
        states_of(&troop.troop_activities),
        vec![TroopState::Moving, TroopState::Deploying]
    );
    assert_eq!(troop.moving_trajectory_points, geodesic().to_vec());
    assert!(troop.moving_trajectory_is_set);
    assert_eq!(troop.current_trajectory_point, 0);
    assert!(!troop.arrived_to_territory);
    assert_eq!(troop.adopted_speed, SpeedType::FightOrFlight);
    assert_eq!(troop.deployed_to_territory, "tundra");
    assert!(troop.waiting_for_deployment_following_action);
    assert_eq!(troop.heat_map.get((1, 1)), None);
    let alps = planet.get_territory_from_virtual_planet(&"alps".to_string());
    assert_eq!(alps.troops.get_all_troops_deployed().len(), 0);
    assert_eq!(alps.troops.get_all_troops_deployed_and_arrived().len(), 0);
    let tundra = planet.get_territory_from_virtual_planet(&"tundra".to_string());
    assert!(tundra
        .troops
        .get_all_troops_deployed()
        .contains(&"t1".to_string(), 1));
    assert_eq!(tundra.troops.get_all_troops_deployed_and_arrived().len(), 0);
}

#[test]
fn an_order_to_move_within_the_own_territory_uses_the_geodesic_trajectory() {
    let mut planet = planet(&["alps"]);
    planet
        .get_mut_territory_from_virtual_planet(&"alps".to_string())
        .inform_troop_arrived(&"t1".to_string(), 1);
    planet
        .get_mut_territory_from_virtual_planet(&"alps".to_string())
        .add_territory_deployment(&"t1".to_string(), 1);
    let mut troop = troop_of(1, "alps");
    troop.set_order_to_move_to(
        &"t1".to_string(),
        &geodesic(),
        &"alps".to_string(),
        &mut planet,
    );
    assert_eq!(troop.moving_trajectory_points, geodesic().to_vec());
    assert_eq!(troop.deployed_to_territory, "alps");
    let alps = planet.get_territory_from_virtual_planet(&"alps".to_string());
    assert!(alps
        .troops
        .get_all_troops_deployed()
        .contains(&"t1".to_string(), 1));
    assert_eq!(alps.troops.get_all_troops_deployed().len(), 1);
    assert_eq!(alps.troops.get_all_troops_deployed_and_arrived().len(), 0);
}

#[test]
fn an_ordered_move_ends_at_rest_without_patrolling() {
    let mut planet = planet(&["alps", "tundra"]);
    let mut troop = troop_of(1, "alps");
    troop.set_order_to_move_to(
        &"t1".to_string(),
        &geodesic(),
        &"tundra".to_string(),
        &mut planet,
    );
    for _ in 0..NUM_OF_WAYPOINTS {
        assert_eq!(
            troop.maybe_move_along_the_trajectory_and_set_orientation(&None, &near()),
            MovementStep::Move(SpeedType::FightOrFlight)
        );
        assert_consistent(&troop.troop_activities);
    }
    assert!(!troop.moving_trajectory_is_set);
    assert_eq!(states_of(&troop.troop_activities), vec![TroopState::Idle]);
    assert_eq!(troop.adopted_speed, SpeedType::Patrolling);
}

fn arriving_troop(player_id: i32) -> Troop<Coordinates> {
    let mut troop = troop_of(player_id, "tundra");
    troop.waiting_for_deployment_following_action = true;
    troop.arrived_to_territory = false;
    troop.troop_activities.remove(&TroopState::Idle);
    troop.troop_activities.remove(&TroopState::Patrolling);
    troop.troop_activities.insert(TroopState::Moving);
    troop.troop_activities.insert(TroopState::Deploying);
    troop.touching_surface_point.territory_id = Some("tundra".to_string());
    troop
}

fn tundra() -> Territory {
    Territory::get_base_territory("tundra", Continent::Europe, None)
}

fn ruled_by(territory: &mut Territory, player_id: i32) {
    let mut ruler = Player::get_blank_static_info();
    ruler.player_id = player_id;
    territory.current_ruler = Some(ruler);
    territory.territory_states.remove(&TerritoryState::Unoccupied);
    territory.territory_states.insert(TerritoryState::Occupied);
}

#[test]
fn a_troop_that_was_not_sent_has_no_next_action() {
    let mut troop = troop_of(1, "tundra");
    troop.touching_surface_point.territory_id = Some("tundra".to_string());
    let mut territory = tundra();
    assert_eq!(
        troop.get_deployment_next_action(&"t1".to_string(), &mut territory),
        DeploymentNextAction::NotArrived
    );
    assert_eq!(territory.troops.get_all_troops_deployed_and_arrived().len(), 0);
}

#[test]
fn a_troop_on_its_way_has_not_arrived() {
    let mut troop = arriving_troop(1);
    let mut territory = tundra();
    troop.touching_surface_point.territory_id = None;
    assert_eq!(
        troop.get_deployment_next_action(&"t1".to_string(), &mut territory),
        DeploymentNextAction::NotArrived
    );
    troop.touching_surface_point.territory_id = Some("alps".to_string());
    assert_eq!(
        troop.get_deployment_next_action(&"t1".to_string(), &mut territory),
        DeploymentNextAction::NotArrived
    );
    assert!(troop.waiting_for_deployment_following_action);
    assert!(!troop.arrived_to_territory);
    assert!(troop.troop_activities.contains(&TroopState::Deploying));
    assert_eq!(territory.troops.get_all_troops_deployed_and_arrived().len(), 0);
}

#[test]
fn arrival_in_an_unoccupied_territory_starts_its_occupation() {
    let mut troop = arriving_troop(1);
    let mut territory = tundra();
    territory
        .territory_states
        .insert(TerritoryState::UnoccupiedUnderConflict);
    assert_eq!(
        troop.get_deployment_next_action(&"t1".to_string(), &mut territory),
        DeploymentNextAction::StartOccupation
    );
    assert!(!troop.waiting_for_deployment_following_action);
    assert!(troop.arrived_to_territory);
    assert_eq!(states_of(&troop.troop_activities), vec![TroopState::Moving]);
    assert!(territory
        .troops
        .get_all_troops_deployed_and_arrived()
        .contains(&"t1".to_string(), 1));
    assert!(territory
        .territory_states
        .contains(&TerritoryState::OccupationInProgress));
    assert!(territory.territory_states.contains(&TerritoryState::Unoccupied));
    assert!(!territory
        .territory_states
        .contains(&TerritoryState::UnoccupiedUnderConflict));
    assert_eq!(territory.player_trying_to_conquer.as_ref().unwrap().player_id, 1);
    assert_eq!(
        troop.get_deployment_next_action(&"t1".to_string(), &mut territory),
        DeploymentNextAction::NotArrived
    );
}

#[test]
fn arrival_in_the_own_territory_changes_nothing_in_it() {
    let mut troop = arriving_troop(1);
    let mut territory = tundra();
    ruled_by(&mut territory, 1);
    assert_eq!(
        troop.get_deployment_next_action(&"t1".to_string(), &mut territory),
        DeploymentNextAction::EnterOwnTerritory
    );
    assert!(territory.territory_states.contains(&TerritoryState::Occupied));
    assert!(!territory
        .territory_states
        .contains(&TerritoryState::OccupiedUnderConflict));
    assert!(territory.player_trying_to_conquer.is_none());
    assert!(troop.arrived_to_territory);
}

#[test]
fn arrival_in_the_territory_of_another_player_disputes_it() {
    let mut troop = arriving_troop(1);
    let mut territory = tundra();
    ruled_by(&mut territory, 2);
    assert_eq!(
        troop.get_deployment_next_action(&"t1".to_string(), &mut territory),
        DeploymentNextAction::ContestOccupiedTerritory
    );
    assert!(territory
        .territory_states
        .contains(&TerritoryState::OccupiedUnderConflict));
    assert!(territory.territory_states.contains(&TerritoryState::Occupied));
    assert_eq!(territory.player_trying_to_conquer.as_ref().unwrap().player_id, 1);
    assert_eq!(territory.current_ruler.as_ref().unwrap().player_id, 2);
}

#[test]
fn arrival_in_an_unoccupied_territory_with_troops_of_another_player_disputes_it() {
    let mut troop = arriving_troop(1);
    let mut territory = tundra();
    territory.inform_troop_arrived(&"e1".to_string(), 2);
    assert_eq!(
        troop.get_deployment_next_action(&"t1".to_string(), &mut territory),
        DeploymentNextAction::ContestUnoccupiedTerritory
    );
    assert!(territory
        .territory_states
        .contains(&TerritoryState::UnoccupiedUnderConflict));
    assert!(!territory
        .territory_states
        .contains(&TerritoryState::OccupationInProgress));
    assert_eq!(territory.player_trying_to_conquer.as_ref().unwrap().player_id, 1);
    assert!(territory.troops.get_has_troops_from_different_players());
}

#[test]
fn arrival_in_a_territory_that_is_neither_unoccupied_nor_ruled_is_undecided() {
    let mut troop = arriving_troop(1);
    let mut territory = tundra();
    territory.territory_states.remove(&TerritoryState::Unoccupied);
    assert_eq!(
        troop.get_deployment_next_action(&"t1".to_string(), &mut territory),
        DeploymentNextAction::Undecided
    );
    assert!(territory.player_trying_to_conquer.is_none());
    assert!(troop.arrived_to_territory);
}
