use expansionists::globe::coordinates_system::coordinates_system::{
    CoordinateError, CoordinateMap, CoordinatesSystem, NUM_OF_WAYPOINTS,
};
use expansionists::globe::coordinates_system::grid::get_neighbors;
use expansionists::globe::coordinates_system::heat_map::{HeatMap, UNREACHABLE};
use expansionists::globe::coordinates_system::surface_point::Coordinates;

/// A grid whose cells lie "at" their own coordinates, so that a trajectory
/// through cells can be read back as cells.
fn grid(latitudes: i16, longitudes: i16) -> CoordinateMap<Coordinates> {
    let mut cartesians = Vec::new();
    for latitude in 0..latitudes {
        for longitude in 0..longitudes {
            cartesians.push((latitude, longitude));
        }
    }
    CoordinateMap::new(latitudes, longitudes, &cartesians)
}

fn grid_with_foreign_block() -> CoordinateMap<Coordinates> {
    let mut map = grid(4, 4);
    for cell in [(1, 1), (1, 2), (2, 1), (2, 2)] {
        map.set_owner(cell, "foreign".to_string()).unwrap();
    }
    map
}

fn is_neighbor(from: Coordinates, to: Coordinates, latitudes: i16, longitudes: i16) -> bool {
    get_neighbors(from, latitudes, longitudes).contains(&to)
}

#[test]
fn neighbors_in_the_middle_of_the_grid() {
    let neighbors = get_neighbors((5, 7), 10, 20);
    assert_eq!(
        neighbors,
        [(5, 8), (5, 6), (6, 7), (4, 7), (6, 8), (4, 8), (6, 6), (4, 6)]
    );
}

#[test]
fn neighbors_wrap_at_latitude_zero_and_longitude_zero() {
    let neighbors = get_neighbors((0, 0), 10, 20);
    assert_eq!(
        neighbors,
        [(0, 1), (0, 19), (1, 0), (9, 0), (1, 1), (9, 1), (1, 19), (9, 19)]
    );
}

#[test]
fn neighbors_wrap_at_latitude_max_and_longitude_max() {
    let neighbors = get_neighbors((9, 19), 10, 20);
    assert_eq!(
        neighbors,
        [(9, 0), (9, 18), (0, 19), (8, 19), (0, 0), (8, 0), (0, 18), (8, 18)]
    );
}

#[test]
fn neighbors_are_eight_distinct_cells_on_every_cell_of_a_small_grid() {
    for latitude in 0..3 {
        for longitude in 0..4 {
            let neighbors = get_neighbors((latitude, longitude), 3, 4);
            for first in 0..8 {
                assert_ne!(neighbors[first], (latitude, longitude));
                for second in (first + 1)..8 {
                    assert_ne!(neighbors[first], neighbors[second]);
                }
            }
        }
    }
}

#[test]
fn neighbors_coincide_on_a_grid_of_two_by_two() {
    let neighbors = get_neighbors((0, 0), 2, 2);
    assert_eq!(neighbors[2], neighbors[3]);
}

#[test]
fn a_new_grid_has_no_owners() {
    let map = grid(3, 5);
    assert_eq!(map.get_num_of_latitudes(), 3);
    assert_eq!(map.get_num_of_longitudes(), 5);
    for latitude in 0..3 {
        for longitude in 0..5 {
            let metadata = map.lookup((latitude, longitude)).unwrap();
            assert_eq!(metadata.territory_id, None);
            assert_eq!(metadata.cartesian, (latitude, longitude));
        }
    }
}

#[test]
fn lookup_outside_the_grid_is_not_found() {
    let map = grid(3, 5);
    assert_eq!(map.lookup((3, 0)).unwrap_err(), CoordinateError::NotFound);
    assert_eq!(map.lookup((0, 5)).unwrap_err(), CoordinateError::NotFound);
    assert_eq!(map.lookup((-1, 0)).unwrap_err(), CoordinateError::NotFound);
    assert_eq!(map.lookup((0, -1)).unwrap_err(), CoordinateError::NotFound);
}

#[test]
fn set_owner_changes_one_cell_and_is_idempotent() {
    let mut map = grid(3, 5);
    assert_eq!(map.set_owner((1, 2), "sahara".to_string()), Ok(()));
    assert_eq!(map.set_owner((1, 2), "sahara".to_string()), Ok(()));
    for latitude in 0..3 {
        for longitude in 0..5 {
            let metadata = map.lookup((latitude, longitude)).unwrap();
            if (latitude, longitude) == (1, 2) {
                assert_eq!(metadata.territory_id, Some("sahara".to_string()));
            } else {
                assert_eq!(metadata.territory_id, None);
            }
            assert_eq!(metadata.cartesian, (latitude, longitude));
        }
    }
    assert_eq!(
        map.set_owner((3, 2), "sahara".to_string()),
        Err(CoordinateError::NotFound)
    );
}

#[test]
fn heat_map_holds_what_was_inserted() {
    let mut heat_map = HeatMap::new();
    assert_eq!(heat_map.get((1, 2)), None);
    heat_map.insert((1, 2), 7);
    heat_map.insert((2, 1), 9);
    assert_eq!(heat_map.get((1, 2)), Some(7));
    assert_eq!(heat_map.get((2, 1)), Some(9));
    assert!(heat_map.contains_key((1, 2)));
    assert!(!heat_map.contains_key((0, 0)));
    assert!(!heat_map.contains_key((-1, 2)));
    heat_map.insert((-1, 2), 4);
    heat_map.insert((1, -2), 4);
    assert_eq!(heat_map.get((-1, 2)), None);
    assert_eq!(heat_map.get((1, -2)), None);
    assert_eq!(heat_map.get((1, 2)), Some(7));
    heat_map.clear();
    assert_eq!(heat_map.get((1, 2)), None);
}

#[test]
fn lowest_distance_among_neighbors() {
    let mut heat_map = HeatMap::new();
    let neighbors = get_neighbors((1, 1), 4, 4);
    assert_eq!(
        CoordinatesSystem::get_lowest_distance_from_neighbors(&neighbors, &heat_map),
        UNREACHABLE
    );
    heat_map.insert((0, 0), 5);
    heat_map.insert((2, 2), 3);
    heat_map.insert((1, 2), UNREACHABLE);
    heat_map.insert((3, 3), 1);
    assert_eq!(
        CoordinatesSystem::get_lowest_distance_from_neighbors(&neighbors, &heat_map),
        3
    );
}

#[test]
fn heat_map_spreads_from_the_origin_to_the_destination() {
    let map = grid(1, 6);
    let mut heat_map = HeatMap::new();
    let reached = CoordinatesSystem::populate_heat_map(
        (0, 0),
        (0, 2),
        &"home".to_string(),
        &map,
        &mut heat_map,
    );
    assert!(reached);
    assert_eq!(heat_map.get((0, 0)), Some(0));
    assert_eq!(heat_map.get((0, 1)), Some(1));
    assert_eq!(heat_map.get((0, 5)), Some(1));
    assert_eq!(heat_map.get((0, 2)), Some(2));
    assert_eq!(heat_map.get((0, 3)), None);
}

#[test]
fn heat_map_marks_other_territories_unreachable() {
    let mut map = grid(1, 6);
    map.set_owner((0, 1), "foreign".to_string()).unwrap();
    map.set_owner((0, 5), "foreign".to_string()).unwrap();
    let mut heat_map = HeatMap::new();
    let reached = CoordinatesSystem::populate_heat_map(
        (0, 0),
        (0, 3),
        &"home".to_string(),
        &map,
        &mut heat_map,
    );
    assert!(!reached);
    assert_eq!(heat_map.get((0, 0)), Some(0));
    assert_eq!(heat_map.get((0, 1)), Some(UNREACHABLE));
    assert_eq!(heat_map.get((0, 5)), Some(UNREACHABLE));
    assert_eq!(heat_map.get((0, 3)), None);
}

#[test]
fn back_trace_follows_lower_distances() {
    let map = grid(1, 8);
    let mut heat_map = HeatMap::new();
    assert!(CoordinatesSystem::populate_heat_map(
        (0, 0),
        (0, 3),
        &"home".to_string(),
        &map,
        &mut heat_map
    ));
    let path = CoordinatesSystem::back_trace_dest_to_origin(&heat_map, (0, 0), (0, 3), 1, 8);
    assert_eq!(path, vec![(0, 0), (0, 1), (0, 2), (0, 3)]);
}

#[test]
fn route_without_foreign_crossing_is_the_geodesic_trajectory() {
    let mut map = grid(4, 4);
    for latitude in 0..4 {
        for longitude in 0..4 {
            map.set_owner((latitude, longitude), "home".to_string()).unwrap();
        }
    }
    let geodesic: [Coordinates; NUM_OF_WAYPOINTS] = [(100, 100); NUM_OF_WAYPOINTS];
    let mut cells = [None; NUM_OF_WAYPOINTS];
    for (index, cell) in cells.iter_mut().enumerate() {
        *cell = Some(((index % 4) as i16, (index % 3) as i16));
    }
    let mut heat_map = HeatMap::new();
    heat_map.insert((2, 2), 42);
    let route = CoordinatesSystem::get_in_the_frontiers_trajectory(
        &geodesic,
        &cells,
        (0, 0),
        (2, 2),
        &"home".to_string(),
        &map,
        &mut heat_map,
    );
    assert_eq!(route, geodesic.to_vec());
    assert_eq!(heat_map.get((2, 2)), Some(42));
}

#[test]
fn route_over_water_is_the_geodesic_trajectory() {
    let map = grid(4, 4);
    let geodesic: [Coordinates; NUM_OF_WAYPOINTS] = [(100, 100); NUM_OF_WAYPOINTS];
    let cells = [Some((1, 1)); NUM_OF_WAYPOINTS];
    let mut heat_map = HeatMap::new();
    let route = CoordinatesSystem::get_in_the_frontiers_trajectory(
        &geodesic,
        &cells,
        (0, 0),
        (2, 2),
        &"home".to_string(),
        &map,
        &mut heat_map,
    );
    assert_eq!(route, geodesic.to_vec());
}

#[test]
fn route_around_a_foreign_block_stays_outside_the_block() {
    let map = grid_with_foreign_block();
    let geodesic: [Coordinates; NUM_OF_WAYPOINTS] = [(100, 100); NUM_OF_WAYPOINTS];
    let mut cells = [Some((0, 0)); NUM_OF_WAYPOINTS];
    cells[10] = Some((1, 1));
    cells[20] = Some((2, 2));
    cells[29] = Some((3, 3));
    let mut heat_map = HeatMap::new();
    let route = CoordinatesSystem::get_in_the_frontiers_trajectory(
        &geodesic,
        &cells,
        (0, 0),
        (3, 3),
        &"home".to_string(),
        &map,
        &mut heat_map,
    );
    assert!(!route.is_empty());
    assert_eq!(route[0], (0, 0));
    assert_eq!(route[route.len() - 1], (3, 3));
    for cell in &route {
        assert!(![(1, 1), (1, 2), (2, 1), (2, 2)].contains(cell));
    }
    for step in 1..route.len() {
        assert!(is_neighbor(route[step - 1], route[step], 4, 4));
    }
}

#[test]
fn route_around_a_foreign_wall_goes_the_long_way() {
    // A grid of one latitude is a ring; a foreign cell on the short side forces
    // the route round the other side.
    let mut map = grid(1, 8);
    map.set_owner((0, 1), "foreign".to_string()).unwrap();
    let geodesic: [Coordinates; NUM_OF_WAYPOINTS] = [(100, 100); NUM_OF_WAYPOINTS];
    let mut cells = [Some((0, 0)); NUM_OF_WAYPOINTS];
    cells[15] = Some((0, 1));
    let mut heat_map = HeatMap::new();
    let route = CoordinatesSystem::get_in_the_frontiers_trajectory(
        &geodesic,
        &cells,
        (0, 0),
        (0, 2),
        &"home".to_string(),
        &map,
        &mut heat_map,
    );
    assert_eq!(
        route,
        vec![(0, 0), (0, 7), (0, 6), (0, 5), (0, 4), (0, 3), (0, 2)]
    );
}

#[test]
fn route_falls_back_to_the_geodesic_trajectory_when_the_destination_is_cut_off() {
    let mut map = grid(1, 8);
    map.set_owner((0, 1), "foreign".to_string()).unwrap();
    map.set_owner((0, 7), "foreign".to_string()).unwrap();
    let mut geodesic: [Coordinates; NUM_OF_WAYPOINTS] = [(100, 100); NUM_OF_WAYPOINTS];
    geodesic[3] = (7, 7);
    let mut cells = [Some((0, 0)); NUM_OF_WAYPOINTS];
    cells[15] = Some((0, 1));
    let mut heat_map = HeatMap::new();
    let route = CoordinatesSystem::get_in_the_frontiers_trajectory(
        &geodesic,
        &cells,
        (0, 0),
        (0, 4),
        &"home".to_string(),
        &map,
        &mut heat_map,
    );
    assert_eq!(route.len(), NUM_OF_WAYPOINTS);
    assert_eq!(route, geodesic.to_vec());
}

#[test]
fn route_to_a_foreign_destination_is_the_geodesic_trajectory() {
    let map = grid_with_foreign_block();
    let geodesic: [Coordinates; NUM_OF_WAYPOINTS] = [(100, 100); NUM_OF_WAYPOINTS];
    let cells = [Some((1, 1)); NUM_OF_WAYPOINTS];
    let mut heat_map = HeatMap::new();
    let route = CoordinatesSystem::get_in_the_frontiers_trajectory(
        &geodesic,
        &cells,
        (0, 0),
        (2, 2),
        &"home".to_string(),
        &map,
        &mut heat_map,
    );
    assert_eq!(route, geodesic.to_vec());
}

#[test]
fn route_from_a_cell_to_itself_is_that_cell() {
    let map = grid_with_foreign_block();
    let geodesic: [Coordinates; NUM_OF_WAYPOINTS] = [(100, 100); NUM_OF_WAYPOINTS];
    let cells = [Some((1, 1)); NUM_OF_WAYPOINTS];
    let mut heat_map = HeatMap::new();
    let route = CoordinatesSystem::get_in_the_frontiers_trajectory(
        &geodesic,
        &cells,
        (0, 3),
        (0, 3),
        &"home".to_string(),
        &map,
        &mut heat_map,
    );
    assert_eq!(route, vec![(0, 3)]);
}

#[test]
fn waypoints_over_no_cell_cross_no_territory() {
    let map = grid_with_foreign_block();
    let mut cells = [None; NUM_OF_WAYPOINTS];
    assert!(!CoordinatesSystem::passes_by_other_territories(
        &cells,
        &map,
        &"home".to_string()
    ));
    cells[4] = Some((9, 9));
    assert!(!CoordinatesSystem::passes_by_other_territories(
        &cells,
        &map,
        &"home".to_string()
    ));
    cells[29] = Some((2, 1));
    assert!(CoordinatesSystem::passes_by_other_territories(
        &cells,
        &map,
        &"home".to_string()
    ));
    assert!(!CoordinatesSystem::passes_by_other_territories(
        &cells,
        &map,
        &"foreign".to_string()
    ));
}

#[test]
fn route_is_a_shortest_way_round_a_foreign_wall() {
    // A wall of foreign cells along latitude 2, open at longitude 5 only; the
    // grid is closed, so the way round the edge is open too.
    let mut map = grid(7, 7);
    for longitude in 0..7 {
        if longitude != 5 {
            map.set_owner((2, longitude), "foreign".to_string()).unwrap();
        }
        map.set_owner((5, longitude), "foreign".to_string()).unwrap();
    }
    let geodesic: [Coordinates; NUM_OF_WAYPOINTS] = [(100, 100); NUM_OF_WAYPOINTS];
    let mut cells = [Some((0, 1)); NUM_OF_WAYPOINTS];
    cells[7] = Some((2, 1));
    let mut heat_map = HeatMap::new();
    let route = CoordinatesSystem::get_in_the_frontiers_trajectory(
        &geodesic,
        &cells,
        (1, 1),
        (3, 1),
        &"home".to_string(),
        &map,
        &mut heat_map,
    );
    // (1,1) -> (1,0) -> (1,6) -> (2,5) -> (3,6) -> (3,0) -> (3,1) is one of the
    // shortest ways: over the edge of the grid and through the gap.
    assert_eq!(route.len(), 7);
    assert_eq!(route[0], (1, 1));
    assert_eq!(route[3], (2, 5));
    assert_eq!(route[6], (3, 1));
    for step in 1..route.len() {
        assert!(is_neighbor(route[step - 1], route[step], 7, 7));
        assert_eq!(heat_map.get(route[step]), Some(step as i32));
    }
    assert_eq!(heat_map.get((1, 1)), Some(0));
    assert_eq!(heat_map.get((2, 1)), Some(UNREACHABLE));
}

#[test]
fn heat_map_holds_the_number_of_steps_from_the_origin() {
    let map = grid(5, 5);
    let mut heat_map = HeatMap::new();
    assert!(CoordinatesSystem::populate_heat_map(
        (2, 2),
        (0, 0),
        &"home".to_string(),
        &map,
        &mut heat_map
    ));
    assert_eq!(heat_map.get((2, 2)), Some(0));
    for cell in [(2, 3), (2, 1), (3, 2), (1, 2), (3, 3), (1, 3), (3, 1), (1, 1)] {
        assert_eq!(heat_map.get(cell), Some(1));
    }
    assert_eq!(heat_map.get((0, 0)), Some(2));
}
