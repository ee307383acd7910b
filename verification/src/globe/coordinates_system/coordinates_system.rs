//! The map from coordinates to what lies there, and the routes of a troop.

use vstd::prelude::*;
use crate::globe::territories::territory::TerritoryId;
use super::flow_field::{
    holds_all_within, holds_distances, in_other_territory, is_descent, is_finite, is_first_lower_neighbor,
    is_flow_field, is_lower, is_lowest_distance, is_search_state, is_trail,
    lemma_descent_is_shortest, lemma_frontier_is_bounded, lemma_search_begins,
    lemma_search_enqueues, lemma_search_expands, lemma_search_has_seen_all,
    lemma_search_has_seen_the_nearer, lemma_search_is_exhaustive, lemma_search_lists,
    lemma_search_marks, lemma_search_results, reachable,
};
use super::grid::{get_neighbors, in_grid, lemma_neighbors_in_grid, neighbors_of};
use super::heat_map::{HeatMap, UNREACHABLE};
use super::surface_point::Coordinates;

verus! {

/// What lies at a cell of the grid: the territory that owns it, if any, and its
/// position in space.
#[derive(Debug)]
pub struct CoordinateMetadata<P> {
    pub territory_id: Option<TerritoryId>,
    pub cartesian: P,
}

/// A coordinate that the grid does not hold.
#[derive(Debug, Clone, Copy, PartialEq, Eq, Structural)]
pub enum CoordinateError {
    NotFound,
}

/// The cells of the grid, by their coordinates. It is filled once; after that
/// only the owner of a cell changes.
pub struct CoordinateMap<P> {
    num_of_latitudes: i16,
    num_of_longitudes: i16,
    cells: Vec<CoordinateMetadata<P>>,
}

impl<P> View for CoordinateMap<P> {
    type V = Map<Coordinates, CoordinateMetadata<P>>;

    closed spec fn view(&self) -> Map<Coordinates, CoordinateMetadata<P>> {
        Map::new(
            |coordinates: Coordinates| in_grid(coordinates, self.num_of_latitudes, self.num_of_longitudes),
            |coordinates: Coordinates| self.cells@[coordinates.0 * self.num_of_longitudes + coordinates.1],
        )
    }
}

/// The place of a cell in a grid that is laid out latitude by latitude.
pub open spec fn cell_index(coordinates: Coordinates, num_of_longitudes: i16) -> int {
    coordinates.0 * num_of_longitudes + coordinates.1
}

/// The place of a cell of a grid lies within the layout of the grid, which
/// holds no more cells than two 16-bit counts allow.
pub proof fn lemma_cell_index_in_bounds(
    coordinates: Coordinates,
    num_of_latitudes: i16,
    num_of_longitudes: i16,
)
    requires
        in_grid(coordinates, num_of_latitudes, num_of_longitudes),
    ensures
        0 <= cell_index(coordinates, num_of_longitudes) < num_of_latitudes * num_of_longitudes,
        num_of_latitudes * num_of_longitudes <= 32767 * 32767,
{
    assert(0 <= coordinates.0 * num_of_longitudes) by (nonlinear_arith)
        requires
            0 <= coordinates.0,
            0 < num_of_longitudes,
    ;
    assert((coordinates.0 + 1) * num_of_longitudes <= num_of_latitudes * num_of_longitudes)
        by (nonlinear_arith)
        requires
            0 <= coordinates.0 < num_of_latitudes,
            0 < num_of_longitudes,
    ;
    assert((coordinates.0 + 1) * num_of_longitudes == coordinates.0 * num_of_longitudes
        + num_of_longitudes) by (nonlinear_arith);
    assert(num_of_latitudes * num_of_longitudes <= 32767 * 32767) by (nonlinear_arith)
        requires
            0 < num_of_latitudes <= 32767,
            0 < num_of_longitudes <= 32767,
    ;
}

/// Two cells of a grid that have the same place in its layout are the same cell.
pub proof fn lemma_cell_index_is_injective(
    first: Coordinates,
    second: Coordinates,
    num_of_latitudes: i16,
    num_of_longitudes: i16,
)
    requires
        in_grid(first, num_of_latitudes, num_of_longitudes),
        in_grid(second, num_of_latitudes, num_of_longitudes),
        cell_index(first, num_of_longitudes) == cell_index(second, num_of_longitudes),
    ensures
        first == second,
{
    let width = num_of_longitudes as int;
    let a = first.0 as int;
    let b = second.0 as int;
    if a < b {
        assert((a + 1) * width <= b * width) by (nonlinear_arith)
            requires
                a + 1 <= b,
                0 < width,
        ;
        assert((a + 1) * width == a * width + width) by (nonlinear_arith);
    } else if b < a {
        assert((b + 1) * width <= a * width) by (nonlinear_arith)
            requires
                b + 1 <= a,
                0 < width,
        ;
        assert((b + 1) * width == b * width + width) by (nonlinear_arith);
    }
}

/// The cells with the cell at `coordinates` handed to the territory
/// `territory_id`, where it lay.
pub open spec fn with_owner<P>(
    cells: Map<Coordinates, CoordinateMetadata<P>>,
    coordinates: Coordinates,
    territory_id: TerritoryId,
) -> Map<Coordinates, CoordinateMetadata<P>> {
    cells.insert(
        coordinates,
        CoordinateMetadata { territory_id: Some(territory_id), cartesian: cells[coordinates].cartesian },
    )
}

/// To hand a cell to the territory that it was just handed to changes nothing.
pub proof fn lemma_set_owner_is_idempotent<P>(
    cells: Map<Coordinates, CoordinateMetadata<P>>,
    coordinates: Coordinates,
    territory_id: TerritoryId,
)
    ensures
        with_owner(with_owner(cells, coordinates, territory_id), coordinates, territory_id)
            == with_owner(cells, coordinates, territory_id),
{
    assert(with_owner(with_owner(cells, coordinates, territory_id), coordinates, territory_id)
        =~= with_owner(cells, coordinates, territory_id));
}

impl<P: Copy> CoordinateMap<P> {
    /// The number of latitudes of the grid.
    pub closed spec fn latitudes(&self) -> i16 {
        self.num_of_latitudes
    }

    /// The number of longitudes of the grid.
    pub closed spec fn longitudes(&self) -> i16 {
        self.num_of_longitudes
    }

    /// The grid holds one cell for each pair of a latitude and a longitude.
    pub closed spec fn wf(&self) -> bool {
        &&& self.num_of_latitudes >= 0
        &&& self.num_of_longitudes >= 0
        &&& self.cells@.len() == self.num_of_latitudes * self.num_of_longitudes
    }

    /// Whether the grid holds `coordinates`.
    pub open spec fn contains(&self, coordinates: Coordinates) -> bool {
        in_grid(coordinates, self.latitudes(), self.longitudes())
    }

    /// The territory that owns the cell at `coordinates`, if any.
    pub open spec fn territory_of(&self, coordinates: Coordinates) -> Option<TerritoryId> {
        self@[coordinates].territory_id
    }

    /// The cells that a grid holds are those within its latitudes and longitudes.
    pub proof fn lemma_domain(&self)
        ensures
            forall|coordinates: Coordinates|
                #[trigger] self@.contains_key(coordinates) <==> self.contains(coordinates),
    {
    }

    /// A grid without cells.
    pub fn empty() -> (map: Self)
        ensures
            map.wf(),
            map.latitudes() == 0,
            map.longitudes() == 0,
    {
        CoordinateMap { num_of_latitudes: 0, num_of_longitudes: 0, cells: Vec::new() }
    }

    /// A grid of `num_of_latitudes` by `num_of_longitudes` cells that no territory
    /// owns yet. The cell at latitude `i` and longitude `j` lies at
    /// `cartesians[i * num_of_longitudes + j]`.
    pub fn new(num_of_latitudes: i16, num_of_longitudes: i16, cartesians: &Vec<P>) -> (map: Self)
        requires
            num_of_latitudes >= 0,
            num_of_longitudes >= 0,
            cartesians@.len() == num_of_latitudes * num_of_longitudes,
        ensures
            map.wf(),
            map.latitudes() == num_of_latitudes,
            map.longitudes() == num_of_longitudes,
            forall|coordinates: Coordinates|
                in_grid(coordinates, num_of_latitudes, num_of_longitudes) ==> {
                    &&& (#[trigger] map@[coordinates]).territory_id is None
                    &&& map@[coordinates].cartesian == cartesians@[cell_index(
                        coordinates,
                        num_of_longitudes,
                    )]
                },
    {
        let mut cells: Vec<CoordinateMetadata<P>> = Vec::new();
        let mut index: usize = 0;
        while index < cartesians.len()
            invariant
                index <= cartesians@.len(),
                cells@.len() == index,
                forall|i: int|
                    0 <= i < index ==> (#[trigger] cells@[i]).territory_id is None && cells@[i].cartesian
                        == cartesians@[i],
            decreases cartesians@.len() - index,
        {
            cells.push(CoordinateMetadata { territory_id: None, cartesian: cartesians[index] });
            index = index + 1;
        }
        let map = CoordinateMap { num_of_latitudes, num_of_longitudes, cells };
        assert forall|coordinates: Coordinates|
            in_grid(coordinates, num_of_latitudes, num_of_longitudes) implies {
            &&& (#[trigger] map@[coordinates]).territory_id is None
            &&& map@[coordinates].cartesian == cartesians@[cell_index(coordinates, num_of_longitudes)]
        } by {
            lemma_cell_index_in_bounds(coordinates, num_of_latitudes, num_of_longitudes);
        }
        map
    }

    /// The number of latitudes of the grid.
    pub fn get_num_of_latitudes(&self) -> (count: i16)
        ensures
            count == self.latitudes(),
    {
        self.num_of_latitudes
    }

    /// The number of longitudes of the grid.
    pub fn get_num_of_longitudes(&self) -> (count: i16)
        ensures
            count == self.longitudes(),
    {
        self.num_of_longitudes
    }

    /// Whether the grid holds `coordinates`.
    pub fn contains_key(&self, coordinates: Coordinates) -> (held: bool)
        ensures
            held == self.contains(coordinates),
    {
        0 <= coordinates.0 && coordinates.0 < self.num_of_latitudes && 0 <= coordinates.1
            && coordinates.1 < self.num_of_longitudes
    }

    /// What lies at `coordinates`; `NotFound` for coordinates that the grid does
    /// not hold.
    pub fn lookup(&self, coordinates: Coordinates) -> (found: Result<
        &CoordinateMetadata<P>,
        CoordinateError,
    >)
        requires
            self.wf(),
        ensures
            self.contains(coordinates) ==> found == Ok::<&CoordinateMetadata<P>, CoordinateError>(
                &self@[coordinates],
            ),
            !self.contains(coordinates) ==> found == Err::<&CoordinateMetadata<P>, CoordinateError>(
                CoordinateError::NotFound,
            ),
    {
        if !self.contains_key(coordinates) {
            return Err(CoordinateError::NotFound);
        }
        proof {
            lemma_cell_index_in_bounds(coordinates, self.num_of_latitudes, self.num_of_longitudes);
        }
        let index = (coordinates.0 as usize) * (self.num_of_longitudes as usize) + (
        coordinates.1 as usize);
        Ok(&self.cells[index])
    }

    /// Hands the cell at `coordinates` to the territory `territory_id`, and leaves
    /// every other cell, and where the cell lies, as they were. Coordinates that
    /// the grid does not hold are `NotFound`, and nothing changes.
    pub fn set_owner(&mut self, coordinates: Coordinates, territory_id: TerritoryId) -> (done: Result<
        (),
        CoordinateError,
    >)
        requires
            old(self).wf(),
        ensures
            final(self).wf(),
            final(self).latitudes() == old(self).latitudes(),
            final(self).longitudes() == old(self).longitudes(),
            old(self).contains(coordinates) ==> done is Ok && final(self)@ == with_owner(
                old(self)@,
                coordinates,
                territory_id,
            ),
            !old(self).contains(coordinates) ==> done == Err::<(), CoordinateError>(
                CoordinateError::NotFound,
            ) && final(self)@ == old(self)@,
    {
        if !self.contains_key(coordinates) {
            return Err(CoordinateError::NotFound);
        }
        proof {
            lemma_cell_index_in_bounds(coordinates, self.num_of_latitudes, self.num_of_longitudes);
        }
        let index = (coordinates.0 as usize) * (self.num_of_longitudes as usize) + (
        coordinates.1 as usize);
        let cartesian = self.cells[index].cartesian;
        self.cells.set(index, CoordinateMetadata { territory_id: Some(territory_id), cartesian });
        proof {
            let updated = old(self)@.insert(
                coordinates,
                CoordinateMetadata {
                    territory_id: Some(territory_id),
                    cartesian: old(self)@[coordinates].cartesian,
                },
            );
            assert forall|other: Coordinates| self@.contains_key(other) implies #[trigger] self@[other]
                == updated[other] by {
                if other != coordinates {
                    lemma_cell_index_in_bounds(other, self.num_of_latitudes, self.num_of_longitudes);
                    if cell_index(other, self.num_of_longitudes) == cell_index(
                        coordinates,
                        self.num_of_longitudes,
                    ) {
                        lemma_cell_index_is_injective(
                            other,
                            coordinates,
                            self.num_of_latitudes,
                            self.num_of_longitudes,
                        );
                    }
                }
            }
            assert(self@ =~= updated);
        }
        Ok(())
    }

    /// Where the cell at `given_coordinates` lies in space.
    pub fn get_cartesian_from_coordinates(&self, given_coordinates: &Coordinates) -> (cartesian: P)
        requires
            self.wf(),
            self.contains(*given_coordinates),
        ensures
            cartesian == self@[*given_coordinates].cartesian,
    {
        proof {
            lemma_cell_index_in_bounds(
                *given_coordinates,
                self.num_of_latitudes,
                self.num_of_longitudes,
            );
        }
        let index = (given_coordinates.0 as usize) * (self.num_of_longitudes as usize) + (
        given_coordinates.1 as usize);
        self.cells[index].cartesian
    }
}

/// The number of waypoints of a trajectory between two points of the surface.
pub const NUM_OF_WAYPOINTS: usize = 30;

/// Whether two territory names are the same name.
pub fn same_territory(first: &TerritoryId, second: &TerritoryId) -> (same: bool)
    ensures
        same == (first@ == second@),
{
    *first == *second
}

/// Whether the waypoint over `cell` is over a territory other than `home`. A
/// waypoint over no cell of the grid is over no territory.
pub open spec fn is_over_other_territory<P: Copy>(
    map: &CoordinateMap<P>,
    cell: Option<Coordinates>,
    home: Seq<char>,
) -> bool {
    match cell {
        Some(coordinates) => map.contains(coordinates) && in_other_territory(map, coordinates, home),
        None => false,
    }
}

/// Whether one of the waypoints, each over the cell given for it, is over a
/// territory other than `home`.
pub open spec fn crosses_other_territories<P: Copy>(
    map: &CoordinateMap<P>,
    cells: Seq<Option<Coordinates>>,
    home: Seq<char>,
) -> bool {
    exists|i: int| 0 <= i < cells.len() && is_over_other_territory(map, #[trigger] cells[i], home)
}

/// Where the cells of `path` lie in space, in the order of the path.
pub open spec fn cartesians_along<P: Copy>(map: &CoordinateMap<P>, path: Seq<Coordinates>) -> Seq<P> {
    Seq::new(path.len(), |i: int| map@[path[i]].cartesian)
}

/// Whether `trajectory` is the trajectory of a troop that stays within the
/// territory `home` on its way from the cell `origin` to the cell
/// `destination`, and `heat_after` the heat map of its search, which was
/// `heat_before`.
///
/// Where `base`, whose waypoints lie over `cells`, passes over no other
/// territory, it is the trajectory, and the heat map is left alone. Otherwise
/// the heat map leads back to `origin` and holds the distances of the shortest
/// trails. Where no trail leads to `destination`, the trajectory is `base`
/// again. Where one does, the trajectory goes through the cells of the way down
/// the heat map, which is such a trail, and no trail is shorter.
pub open spec fn is_in_the_frontiers_trajectory<P: Copy>(
    trajectory: Seq<P>,
    heat_before: Map<Coordinates, i32>,
    heat_after: Map<Coordinates, i32>,
    base: Seq<P>,
    cells: Seq<Option<Coordinates>>,
    origin: Coordinates,
    destination: Coordinates,
    home: Seq<char>,
    map: &CoordinateMap<P>,
) -> bool {
    if !crosses_other_territories(map, cells, home) {
        &&& trajectory == base
        &&& heat_after == heat_before
    } else {
        &&& is_flow_field(heat_after, map, home, origin)
        &&& holds_distances(heat_after, map, home, origin)
        &&& if !reachable(map, home, origin, destination) {
            trajectory == base
        } else {
            exists|path: Seq<Coordinates>|
                {
                    &&& is_descent(
                        path,
                        heat_after,
                        origin,
                        destination,
                        map.latitudes(),
                        map.longitudes(),
                    )
                    &&& is_trail(path, map, home, origin, destination)
                    &&& forall|trail: Seq<Coordinates>|
                        is_trail(trail, map, home, origin, destination) ==> #[trigger] trail.len()
                            >= path.len()
                    &&& trajectory == cartesians_along(map, path)
                }
        }
    }
}

/// Routes over the surface of the planet.
pub struct CoordinatesSystem {}

impl CoordinatesSystem {
    /// Whether the cell at `coordinates` belongs to a territory other than
    /// `within_the_territory_id`.
    pub fn is_in_other_territory<P: Copy>(
        coordinate_map: &CoordinateMap<P>,
        coordinates: Coordinates,
        within_the_territory_id: &TerritoryId,
    ) -> (other: bool)
        requires
            coordinate_map.wf(),
            coordinate_map.contains(coordinates),
        ensures
            other == in_other_territory(coordinate_map, coordinates, within_the_territory_id@),
    {
        match coordinate_map.lookup(coordinates) {
            Ok(metadata) => match &metadata.territory_id {
                Some(territory_id) => !same_territory(territory_id, within_the_territory_id),
                None => false,
            },
            Err(_) => false,
        }
    }

    /// Whether the trajectory, whose waypoints lie over `trajectory_cells`, passes
    /// over a territory other than `within_the_territory_id`.
    pub fn passes_by_other_territories<P: Copy>(
        trajectory_cells: &[Option<Coordinates>; NUM_OF_WAYPOINTS],
        coordinate_map: &CoordinateMap<P>,
        within_the_territory_id: &TerritoryId,
    ) -> (passes: bool)
        requires
            coordinate_map.wf(),
        ensures
            passes == crosses_other_territories(
                coordinate_map,
                trajectory_cells@,
                within_the_territory_id@,
            ),
    {
        let mut waypoint: usize = 0;
        while waypoint < NUM_OF_WAYPOINTS
            invariant
                coordinate_map.wf(),
                waypoint <= NUM_OF_WAYPOINTS,
                trajectory_cells@.len() == NUM_OF_WAYPOINTS,
                forall|i: int|
                    0 <= i < waypoint ==> !is_over_other_territory(
                        coordinate_map,
                        #[trigger] trajectory_cells@[i],
                        within_the_territory_id@,
                    ),
            decreases NUM_OF_WAYPOINTS - waypoint,
        {
            match trajectory_cells[waypoint] {
                Some(coordinates) => {
                    if coordinate_map.contains_key(coordinates) && Self::is_in_other_territory(
                        coordinate_map,
                        coordinates,
                        within_the_territory_id,
                    ) {
                        return true;
                    }
                },
                None => {},
            }
            waypoint = waypoint + 1;
        }
        false
    }

    /// The lowest distance that the heat map holds among `neighbors`, and
    /// `UNREACHABLE` where it holds none of them.
    pub fn get_lowest_distance_from_neighbors(neighbors: &[Coordinates; 8], heat_map: &HeatMap) -> (lowest: i32)
        ensures
            is_lowest_distance(heat_map@, neighbors@, lowest),
    {
        let mut min_distance: i32 = UNREACHABLE;
        let mut direction: usize = 0;
        while direction < 8
            invariant
                direction <= 8,
                neighbors@.len() == 8,
                is_lowest_distance(heat_map@, neighbors@.take(direction as int), min_distance),
            decreases 8 - direction,
        {
            let ghost seen = neighbors@.take(direction as int);
            let ghost wider = neighbors@.take(direction + 1);
            let ghost before = min_distance;
            match heat_map.get(neighbors[direction]) {
                Some(distance) => {
                    if distance < min_distance {
                        min_distance = distance;
                    }
                },
                None => {},
            }
            proof {
                assert forall|i: int| 0 <= i < wider.len() && heat_map@.contains_key(#[trigger] wider[i]) implies min_distance
                    <= heat_map@[wider[i]] by {
                    if i < direction {
                        assert(seen[i] == wider[i]);
                    }
                }
                if min_distance != UNREACHABLE {
                    if min_distance == before {
                        let i = choose|i: int|
                            0 <= i < seen.len() && heat_map@.contains_key(#[trigger] seen[i])
                                && heat_map@[seen[i]] == before;
                        assert(wider[i] == seen[i]);
                    } else {
                        assert(wider[direction as int] == neighbors@[direction as int]);
                    }
                }
            }
            direction = direction + 1;
        }
        assert(neighbors@.take(8) =~= neighbors@);
        min_distance
    }

    /// Spreads distances over the grid from `origin_lat_long`, which gets distance
    /// 0, until `dest_lat_long` has got one or no cell is left to look at. The
    /// cells are looked round in the order in which they got their distances. A
    /// cell of a territory other than `within_the_territory_id` is marked
    /// `UNREACHABLE` and not looked beyond; each other cell gets one more than
    /// the lowest distance among its neighbours at that time.
    ///
    /// The result says whether `dest_lat_long` got a distance, which it does
    /// exactly when a trail leads to it. Either way the heat map, which is
    /// cleared first, leads back to `origin_lat_long` from every cell that got a
    /// distance, and each distance is the number of steps of the shortest trail
    /// to the cell. Every cell nearer than `dest_lat_long` has got its distance,
    /// and every cell that a trail leads to where none leads to `dest_lat_long`.
    pub fn populate_heat_map<P: Copy>(
        origin_lat_long: Coordinates,
        dest_lat_long: Coordinates,
        within_the_territory_id: &TerritoryId,
        coordinate_map: &CoordinateMap<P>,
        heat_map: &mut HeatMap,
    ) -> (reached: bool)
        requires
            coordinate_map.wf(),
            coordinate_map.contains(origin_lat_long),
            coordinate_map.contains(dest_lat_long),
        ensures
            is_flow_field(final(heat_map)@, coordinate_map, within_the_territory_id@, origin_lat_long),
            holds_distances(
                final(heat_map)@,
                coordinate_map,
                within_the_territory_id@,
                origin_lat_long,
            ),
            reached == is_finite(final(heat_map)@, dest_lat_long),
            reached == reachable(
                coordinate_map,
                within_the_territory_id@,
                origin_lat_long,
                dest_lat_long,
            ),
            reached ==> holds_all_within(
                final(heat_map)@,
                coordinate_map,
                within_the_territory_id@,
                origin_lat_long,
                final(heat_map)@[dest_lat_long] as int,
            ),
            !reached ==> forall|steps: int|
                holds_all_within(
                    final(heat_map)@,
                    coordinate_map,
                    within_the_territory_id@,
                    origin_lat_long,
                    steps,
                ),
    {
        let ghost home = within_the_territory_id@;
        let num_of_latitudes = coordinate_map.get_num_of_latitudes();
        let num_of_longitudes = coordinate_map.get_num_of_longitudes();
        heat_map.clear();
        heat_map.insert(origin_lat_long, 0);
        let mut frontier: Vec<Coordinates> = Vec::new();
        frontier.push(origin_lat_long);
        proof {
            lemma_search_begins(coordinate_map, home, origin_lat_long);
            assert(frontier@ =~= seq![origin_lat_long]);
        }
        if origin_lat_long.0 == dest_lat_long.0 && origin_lat_long.1 == dest_lat_long.1 {
            proof {
                lemma_search_results(heat_map@, frontier@, 0, coordinate_map, home, origin_lat_long);
            }
            return true;
        }
        let mut expanded: usize = 0;
        while expanded < frontier.len()
            invariant
                is_search_state(heat_map@, frontier@, expanded as int, coordinate_map, home, origin_lat_long),
                expanded <= frontier@.len(),
                !is_finite(heat_map@, dest_lat_long),
                coordinate_map.wf(),
                coordinate_map.contains(dest_lat_long),
                num_of_latitudes == coordinate_map.latitudes(),
                num_of_longitudes == coordinate_map.longitudes(),
                home == within_the_territory_id@,
            decreases coordinate_map.latitudes() * coordinate_map.longitudes() - expanded,
        {
            proof {
                lemma_frontier_is_bounded(
                    heat_map@,
                    frontier@,
                    expanded as int,
                    coordinate_map,
                    home,
                    origin_lat_long,
                );
                lemma_search_lists(
                    heat_map@,
                    frontier@,
                    expanded as int,
                    coordinate_map,
                    home,
                    origin_lat_long,
                    expanded as int,
                );
            }
            let current = frontier[expanded];
            let neighbors = get_neighbors(current, num_of_latitudes, num_of_longitudes);
            proof {
                lemma_neighbors_in_grid(current, num_of_latitudes, num_of_longitudes);
            }
            let mut direction: usize = 0;
            while direction < 8
                invariant
                    is_search_state(
                        heat_map@,
                        frontier@,
                        expanded as int,
                        coordinate_map,
                        home,
                        origin_lat_long,
                    ),
                    !is_finite(heat_map@, dest_lat_long),
                    coordinate_map.wf(),
                    coordinate_map.contains(dest_lat_long),
                    num_of_latitudes == coordinate_map.latitudes(),
                    num_of_longitudes == coordinate_map.longitudes(),
                    home == within_the_territory_id@,
                    direction <= 8,
                    expanded < frontier@.len(),
                    current == frontier@[expanded as int],
                    neighbors@ == neighbors_of(current, num_of_latitudes, num_of_longitudes),
                    forall|way: int|
                        0 <= way < 8 ==> in_grid(
                            #[trigger] neighbors_of(current, num_of_latitudes, num_of_longitudes)[way],
                            num_of_latitudes,
                            num_of_longitudes,
                        ),
                    forall|way: int|
                        0 <= way < direction ==> heat_map@.contains_key(
                            #[trigger] neighbors_of(current, num_of_latitudes, num_of_longitudes)[way],
                        ),
                decreases 8 - direction,
            {
                let neighbor = neighbors[direction];
                assert(neighbor == neighbors_of(current, num_of_latitudes, num_of_longitudes)[direction as int]);
                if !heat_map.contains_key(neighbor) {
                    if Self::is_in_other_territory(coordinate_map, neighbor, within_the_territory_id) {
                        proof {
                            lemma_search_marks(
                                heat_map@,
                                frontier@,
                                expanded as int,
                                coordinate_map,
                                home,
                                origin_lat_long,
                                neighbor,
                            );
                        }
                        heat_map.insert(neighbor, UNREACHABLE);
                    } else {
                        let around = get_neighbors(neighbor, num_of_latitudes, num_of_longitudes);
                        let distance_level_from_origin = Self::get_lowest_distance_from_neighbors(
                            &around,
                            heat_map,
                        );
                        proof {
                            lemma_search_enqueues(
                                heat_map@,
                                frontier@,
                                expanded as int,
                                coordinate_map,
                                home,
                                origin_lat_long,
                                direction as int,
                                distance_level_from_origin,
                            );
                        }
                        let neighbor_distance = distance_level_from_origin + 1;
                        heat_map.insert(neighbor, neighbor_distance);
                        frontier.push(neighbor);
                        if neighbor.0 == dest_lat_long.0 && neighbor.1 == dest_lat_long.1 {
                            proof {
                                lemma_search_has_seen_the_nearer(
                                    heat_map@,
                                    frontier@,
                                    expanded as int,
                                    coordinate_map,
                                    home,
                                    origin_lat_long,
                                );
                                lemma_search_results(
                                    heat_map@,
                                    frontier@,
                                    expanded as int,
                                    coordinate_map,
                                    home,
                                    origin_lat_long,
                                );
                            }
                            return true;
                        }
                    }
                }
                direction = direction + 1;
            }
            proof {
                lemma_search_expands(
                    heat_map@,
                    frontier@,
                    expanded as int,
                    coordinate_map,
                    home,
                    origin_lat_long,
                );
            }
            expanded = expanded + 1;
        }
        proof {
            lemma_search_results(
                heat_map@,
                frontier@,
                expanded as int,
                coordinate_map,
                home,
                origin_lat_long,
            );
            assert forall|steps: int|
                holds_all_within(heat_map@, coordinate_map, home, origin_lat_long, steps) by {
                lemma_search_has_seen_all(
                    heat_map@,
                    frontier@,
                    coordinate_map,
                    home,
                    origin_lat_long,
                    steps,
                );
            }
            assert forall|trail: Seq<Coordinates>|
                is_trail(trail, coordinate_map, home, origin_lat_long, dest_lat_long) implies false by {
                lemma_search_is_exhaustive(
                    heat_map@,
                    frontier@,
                    coordinate_map,
                    home,
                    origin_lat_long,
                    trail,
                    trail.len() - 1,
                );
            }
        }
        false
    }

    /// The way from `origin_lat_long` to `dest_lat_long` that the heat map
    /// gives: from `dest_lat_long` back, each cell is left for the first of its
    /// neighbours that holds a lower distance, until `origin_lat_long` is met.
    pub fn back_trace_dest_to_origin(
        heat_map: &HeatMap,
        origin_lat_long: Coordinates,
        dest_lat_long: Coordinates,
        num_of_latitudes: i16,
        num_of_longitudes: i16,
    ) -> (in_the_frontiers_coordinates: Vec<Coordinates>)
        requires
            is_finite(heat_map@, dest_lat_long),
            heat_map@.contains_key(origin_lat_long),
            heat_map@[origin_lat_long] == 0,
            forall|coordinates: Coordinates| #[trigger]
                heat_map@.contains_key(coordinates) ==> {
                    &&& in_grid(coordinates, num_of_latitudes, num_of_longitudes)
                    &&& heat_map@[coordinates] >= 0
                    &&& heat_map@[coordinates] < UNREACHABLE && coordinates != origin_lat_long
                        ==> super::flow_field::has_lower_neighbor(
                        heat_map@,
                        coordinates,
                        num_of_latitudes,
                        num_of_longitudes,
                    )
                },
        ensures
            is_descent(
                in_the_frontiers_coordinates@,
                heat_map@,
                origin_lat_long,
                dest_lat_long,
                num_of_latitudes,
                num_of_longitudes,
            ),
    {
        let ghost heat = heat_map@;
        let mut backwards: Vec<Coordinates> = Vec::new();
        backwards.push(dest_lat_long);
        let mut current = dest_lat_long;
        while !(current.0 == origin_lat_long.0 && current.1 == origin_lat_long.1)
            invariant
                heat == heat_map@,
                heat.contains_key(origin_lat_long),
                heat[origin_lat_long] == 0,
                forall|coordinates: Coordinates| #[trigger]
                    heat.contains_key(coordinates) ==> {
                        &&& in_grid(coordinates, num_of_latitudes, num_of_longitudes)
                        &&& heat[coordinates] >= 0
                        &&& heat[coordinates] < UNREACHABLE && coordinates != origin_lat_long
                            ==> super::flow_field::has_lower_neighbor(
                            heat,
                            coordinates,
                            num_of_latitudes,
                            num_of_longitudes,
                        )
                    },
                backwards@.len() > 0,
                backwards@[0] == dest_lat_long,
                backwards@[backwards@.len() - 1] == current,
                forall|i: int| 0 <= i < backwards@.len() ==> is_finite(heat, #[trigger] backwards@[i]),
                forall|i: int|
                    0 <= i < backwards@.len() - 1 ==> backwards@[i] != origin_lat_long
                        && is_first_lower_neighbor(
                        heat,
                        #[trigger] backwards@[i],
                        backwards@[i + 1],
                        num_of_latitudes,
                        num_of_longitudes,
                    ),
            decreases heat[current],
        {
            let neighbors = get_neighbors(current, num_of_latitudes, num_of_longitudes);
            let current_distance = match heat_map.get(current) {
                Some(distance) => distance,
                None => 0,
            };
            let mut direction: usize = 0;
            let mut next = current;
            let mut found = false;
            while direction < 8 && !found
                invariant
                    heat == heat_map@,
                    direction <= 8,
                    is_finite(heat, current),
                    current_distance == heat[current],
                    neighbors@ == neighbors_of(current, num_of_latitudes, num_of_longitudes),
                    forall|earlier: int|
                        0 <= earlier < direction - (if found { 1int } else { 0int }) ==> !is_lower(
                            heat,
                            current,
                            #[trigger] neighbors_of(current, num_of_latitudes, num_of_longitudes)[earlier],
                        ),
                    found ==> 0 < direction && next == neighbors_of(
                        current,
                        num_of_latitudes,
                        num_of_longitudes,
                    )[direction - 1] && is_lower(heat, current, next),
                decreases 8 - direction,
            {
                let neighbor = neighbors[direction];
                match heat_map.get(neighbor) {
                    Some(neighbor_distance) => {
                        if 0 <= neighbor_distance && neighbor_distance < current_distance {
                            next = neighbor;
                            found = true;
                        }
                    },
                    None => {},
                }
                direction = direction + 1;
            }
            proof {
                if !found {
                    assert(super::flow_field::has_lower_neighbor(
                        heat,
                        current,
                        num_of_latitudes,
                        num_of_longitudes,
                    ));
                    assert(false);
                }
                assert(is_first_lower_neighbor(heat, current, next, num_of_latitudes, num_of_longitudes));
            }
            backwards.push(next);
            current = next;
        }
        let mut in_the_frontiers_coordinates: Vec<Coordinates> = Vec::new();
        let mut left: usize = backwards.len();
        while left > 0
            invariant
                left <= backwards@.len(),
                in_the_frontiers_coordinates@.len() == backwards@.len() - left,
                forall|i: int|
                    0 <= i < in_the_frontiers_coordinates@.len() ==> #[trigger] in_the_frontiers_coordinates@[i]
                        == backwards@[backwards@.len() - 1 - i],
            decreases left,
        {
            left = left - 1;
            in_the_frontiers_coordinates.push(backwards[left]);
        }
        proof {
            let path = in_the_frontiers_coordinates@;
            let count = backwards@.len() as int;
            assert forall|i: int| 0 <= i < path.len() implies is_finite(heat, #[trigger] path[i]) by {
                assert(path[i] == backwards@[count - 1 - i]);
            }
            assert forall|i: int| 0 < i < path.len() implies path[i] != origin_lat_long
                && is_first_lower_neighbor(
                heat,
                #[trigger] path[i],
                path[i - 1],
                num_of_latitudes,
                num_of_longitudes,
            ) by {
                assert(path[i] == backwards@[count - 1 - i]);
                assert(path[i - 1] == backwards@[count - 1 - i + 1]);
            }
        }
        in_the_frontiers_coordinates
    }
    /// The waypoints of `trajectory`, in a vector.
    pub fn trajectory_to_vec<P: Copy>(trajectory: &[P; NUM_OF_WAYPOINTS]) -> (waypoints: Vec<P>)
        ensures
            waypoints@ == trajectory@,
    {
        let mut waypoints: Vec<P> = Vec::new();
        let mut waypoint: usize = 0;
        while waypoint < NUM_OF_WAYPOINTS
            invariant
                waypoint <= NUM_OF_WAYPOINTS,
                trajectory@.len() == NUM_OF_WAYPOINTS,
                waypoints@.len() == waypoint,
                forall|i: int| 0 <= i < waypoint ==> #[trigger] waypoints@[i] == trajectory@[i],
            decreases NUM_OF_WAYPOINTS - waypoint,
        {
            waypoints.push(trajectory[waypoint]);
            waypoint = waypoint + 1;
        }
        assert(waypoints@ =~= trajectory@);
        waypoints
    }

    /// The trajectory of a troop that stays within its territory; see
    /// `is_in_the_frontiers_trajectory`.
    ///
    /// `base_geodesic_trajectory` leads from the cell `origin_lat_long` to the
    /// cell `dest_lat_long`, and its waypoints lie over `trajectory_cells`.
    pub fn get_in_the_frontiers_trajectory<P: Copy>(
        base_geodesic_trajectory: &[P; NUM_OF_WAYPOINTS],
        trajectory_cells: &[Option<Coordinates>; NUM_OF_WAYPOINTS],
        origin_lat_long: Coordinates,
        dest_lat_long: Coordinates,
        within_the_territory_id: &TerritoryId,
        coordinate_map: &CoordinateMap<P>,
        heat_map: &mut HeatMap,
    ) -> (in_the_frontiers_trajectory: Vec<P>)
        requires
            coordinate_map.wf(),
            coordinate_map.contains(origin_lat_long),
            coordinate_map.contains(dest_lat_long),
        ensures
            in_the_frontiers_trajectory@.len() > 0,
            is_in_the_frontiers_trajectory(
                in_the_frontiers_trajectory@,
                old(heat_map)@,
                final(heat_map)@,
                base_geodesic_trajectory@,
                trajectory_cells@,
                origin_lat_long,
                dest_lat_long,
                within_the_territory_id@,
                coordinate_map,
            ),
    {
        if !Self::passes_by_other_territories(
            trajectory_cells,
            coordinate_map,
            within_the_territory_id,
        ) {
            return Self::trajectory_to_vec(base_geodesic_trajectory);
        }
        let reached = Self::populate_heat_map(
            origin_lat_long,
            dest_lat_long,
            within_the_territory_id,
            coordinate_map,
            heat_map,
        );
        if !reached {
            return Self::trajectory_to_vec(base_geodesic_trajectory);
        }
        proof {
            coordinate_map.lemma_domain();
        }
        let in_the_frontiers_coordinates = Self::back_trace_dest_to_origin(
            heat_map,
            origin_lat_long,
            dest_lat_long,
            coordinate_map.get_num_of_latitudes(),
            coordinate_map.get_num_of_longitudes(),
        );
        proof {
            lemma_descent_is_shortest(
                in_the_frontiers_coordinates@,
                heat_map@,
                coordinate_map,
                within_the_territory_id@,
                origin_lat_long,
                dest_lat_long,
            );
        }
        let mut in_the_frontiers_trajectory: Vec<P> = Vec::new();
        let mut cell: usize = 0;
        while cell < in_the_frontiers_coordinates.len()
            invariant
                coordinate_map.wf(),
                cell <= in_the_frontiers_coordinates@.len(),
                in_the_frontiers_trajectory@.len() == cell,
                forall|i: int|
                    0 <= i < in_the_frontiers_coordinates@.len() ==> coordinate_map.contains(
                        #[trigger] in_the_frontiers_coordinates@[i],
                    ),
                forall|i: int|
                    0 <= i < cell ==> #[trigger] in_the_frontiers_trajectory@[i]
                        == coordinate_map@[in_the_frontiers_coordinates@[i]].cartesian,
            decreases in_the_frontiers_coordinates@.len() - cell,
        {
            let cartesian = coordinate_map.get_cartesian_from_coordinates(
                &in_the_frontiers_coordinates[cell],
            );
            in_the_frontiers_trajectory.push(cartesian);
            cell = cell + 1;
        }
        assert(in_the_frontiers_trajectory@ =~= cartesians_along(
            coordinate_map,
            in_the_frontiers_coordinates@,
        ));
        in_the_frontiers_trajectory
    }
}

/// A trail that starts outside other territories enters no cell of another
/// territory.
pub proof fn lemma_trail_stays_out_of_other_territories<P: Copy>(
    trail: Seq<Coordinates>,
    map: &CoordinateMap<P>,
    home: Seq<char>,
    origin: Coordinates,
    destination: Coordinates,
)
    requires
        is_trail(trail, map, home, origin, destination),
        !in_other_territory(map, origin, home),
    ensures
        forall|i: int| 0 <= i < trail.len() ==> !in_other_territory(map, #[trigger] trail[i], home),
{
    assert forall|i: int| 0 <= i < trail.len() implies !in_other_territory(map, #[trigger] trail[i], home) by {
        if i > 0 {
            assert(super::flow_field::is_step(map, home, trail[i - 1], trail[i]));
        }
    }
}

} // verus!
