//! What a search over the grid may enter, what it has found, and why its heat
//! map leads back to the origin.

use vstd::prelude::*;
use super::coordinates_system::{cell_index, lemma_cell_index_in_bounds, lemma_cell_index_is_injective, CoordinateMap};
use super::grid::{adjacent, lemma_neighbors_in_grid, neighbors_of};
use super::heat_map::UNREACHABLE;
use super::surface_point::Coordinates;

verus! {

/// Whether the cell at `coordinates` belongs to a territory other than `home`.
/// A cell that no territory owns belongs to none.
pub open spec fn in_other_territory<P: Copy>(
    map: &CoordinateMap<P>,
    coordinates: Coordinates,
    home: Seq<char>,
) -> bool {
    match map.territory_of(coordinates) {
        Some(territory_id) => territory_id@ != home,
        None => false,
    }
}

/// Whether a troop that stays out of other territories may step from `from` to
/// `to`: the two are neighbours, and `to` is not in another territory.
pub open spec fn is_step<P: Copy>(
    map: &CoordinateMap<P>,
    home: Seq<char>,
    from: Coordinates,
    to: Coordinates,
) -> bool {
    &&& adjacent(from, to, map.latitudes(), map.longitudes())
    &&& !in_other_territory(map, to, home)
}

/// Whether `trail` leads over the grid from `origin` to `destination`, step by
/// step, and after `origin` enters no cell of a territory other than `home`.
pub open spec fn is_trail<P: Copy>(
    trail: Seq<Coordinates>,
    map: &CoordinateMap<P>,
    home: Seq<char>,
    origin: Coordinates,
    destination: Coordinates,
) -> bool {
    &&& trail.len() > 0
    &&& trail[0] == origin
    &&& trail[trail.len() - 1] == destination
    &&& forall|i: int| 0 <= i < trail.len() ==> map.contains(#[trigger] trail[i])
    &&& forall|i: int| 0 < i < trail.len() ==> is_step(map, home, trail[i - 1], #[trigger] trail[i])
}

/// Whether some trail leads from `origin` to `destination`.
pub open spec fn reachable<P: Copy>(
    map: &CoordinateMap<P>,
    home: Seq<char>,
    origin: Coordinates,
    destination: Coordinates,
) -> bool {
    exists|trail: Seq<Coordinates>| is_trail(trail, map, home, origin, destination)
}

/// Whether a trail of `steps` steps leads from `origin` to `destination`.
pub open spec fn has_trail_of<P: Copy>(
    map: &CoordinateMap<P>,
    home: Seq<char>,
    origin: Coordinates,
    destination: Coordinates,
    steps: int,
) -> bool {
    exists|trail: Seq<Coordinates>|
        is_trail(trail, map, home, origin, destination) && trail.len() == steps + 1
}

/// Whether `steps` is the number of steps of the shortest trail from `origin` to
/// `destination`.
pub open spec fn is_distance<P: Copy>(
    map: &CoordinateMap<P>,
    home: Seq<char>,
    origin: Coordinates,
    destination: Coordinates,
    steps: int,
) -> bool {
    &&& has_trail_of(map, home, origin, destination, steps)
    &&& forall|trail: Seq<Coordinates>|
        is_trail(trail, map, home, origin, destination) ==> #[trigger] trail.len() >= steps + 1
}

/// Whether each distance that the heat map holds is the number of steps of the
/// shortest trail from `origin` to the cell.
pub open spec fn holds_distances<P: Copy>(
    heat: Map<Coordinates, i32>,
    map: &CoordinateMap<P>,
    home: Seq<char>,
    origin: Coordinates,
) -> bool {
    forall|coordinates: Coordinates|
        is_finite(heat, coordinates) ==> #[trigger] is_distance(
            map,
            home,
            origin,
            coordinates,
            heat[coordinates] as int,
        )
}

/// Whether the heat map holds a distance for the cell, and not the mark of a
/// cell that may not be entered.
pub open spec fn is_finite(heat: Map<Coordinates, i32>, coordinates: Coordinates) -> bool {
    heat.contains_key(coordinates) && heat[coordinates] < UNREACHABLE
}

/// Whether `lower` holds a distance below that of `coordinates`.
pub open spec fn is_lower(heat: Map<Coordinates, i32>, coordinates: Coordinates, lower: Coordinates) -> bool {
    heat.contains_key(lower) && 0 <= heat[lower] < heat[coordinates]
}

/// Whether one of the neighbours of `coordinates` holds a distance below that of
/// `coordinates`.
pub open spec fn has_lower_neighbor(
    heat: Map<Coordinates, i32>,
    coordinates: Coordinates,
    num_of_latitudes: i16,
    num_of_longitudes: i16,
) -> bool {
    exists|direction: int|
        0 <= direction < 8 && is_lower(
            heat,
            coordinates,
            #[trigger] neighbors_of(coordinates, num_of_latitudes, num_of_longitudes)[direction],
        )
}

/// What makes a heat map lead back to `origin`: `origin` holds distance 0; a
/// cell holds the mark `UNREACHABLE` only if it belongs to a territory other
/// than `home`; and every other cell that it holds is outside such territories
/// and has a neighbour with a lower distance.
pub open spec fn is_flow_field<P: Copy>(
    heat: Map<Coordinates, i32>,
    map: &CoordinateMap<P>,
    home: Seq<char>,
    origin: Coordinates,
) -> bool {
    &&& heat.contains_key(origin)
    &&& heat[origin] == 0
    &&& forall|coordinates: Coordinates| #[trigger]
        heat.contains_key(coordinates) ==> {
            &&& map.contains(coordinates)
            &&& heat[coordinates] >= 0
            &&& heat[coordinates] == UNREACHABLE ==> in_other_territory(map, coordinates, home)
            &&& heat[coordinates] < UNREACHABLE && coordinates != origin ==> {
                &&& !in_other_territory(map, coordinates, home)
                &&& has_lower_neighbor(heat, coordinates, map.latitudes(), map.longitudes())
            }
        }
}

/// Whether `lower` is the first of the neighbours of `coordinates`, in the order
/// in which they are visited, that holds a distance below that of `coordinates`.
pub open spec fn is_first_lower_neighbor(
    heat: Map<Coordinates, i32>,
    coordinates: Coordinates,
    lower: Coordinates,
    num_of_latitudes: i16,
    num_of_longitudes: i16,
) -> bool {
    exists|direction: int|
        0 <= direction < 8 && #[trigger] neighbors_of(coordinates, num_of_latitudes, num_of_longitudes)[direction]
            == lower && is_lower(heat, coordinates, lower) && forall|earlier: int|
            0 <= earlier < direction ==> !is_lower(
                heat,
                coordinates,
                #[trigger] neighbors_of(coordinates, num_of_latitudes, num_of_longitudes)[earlier],
            )
}

/// Whether `path` is the way down the heat map from `destination` to `origin`,
/// told from `origin` on: each cell after the first is left for the first of
/// its neighbours that holds a lower distance, and `origin` is met once only.
pub open spec fn is_descent(
    path: Seq<Coordinates>,
    heat: Map<Coordinates, i32>,
    origin: Coordinates,
    destination: Coordinates,
    num_of_latitudes: i16,
    num_of_longitudes: i16,
) -> bool {
    &&& path.len() > 0
    &&& path[0] == origin
    &&& path[path.len() - 1] == destination
    &&& forall|i: int| 0 <= i < path.len() ==> is_finite(heat, #[trigger] path[i])
    &&& forall|i: int|
        0 < i < path.len() ==> path[i] != origin && is_first_lower_neighbor(
            heat,
            #[trigger] path[i],
            path[i - 1],
            num_of_latitudes,
            num_of_longitudes,
        )
}

/// The way down a heat map that leads back to `origin` is a trail from `origin`.
pub proof fn lemma_descent_is_trail<P: Copy>(
    path: Seq<Coordinates>,
    heat: Map<Coordinates, i32>,
    map: &CoordinateMap<P>,
    home: Seq<char>,
    origin: Coordinates,
    destination: Coordinates,
)
    requires
        map.wf(),
        is_flow_field(heat, map, home, origin),
        is_descent(path, heat, origin, destination, map.latitudes(), map.longitudes()),
    ensures
        is_trail(path, map, home, origin, destination),
{
    map.lemma_domain();
    assert forall|i: int| 0 <= i < path.len() implies map.contains(#[trigger] path[i]) by {
        assert(is_finite(heat, path[i]));
    }
    assert forall|i: int| 0 < i < path.len() implies is_step(map, home, path[i - 1], #[trigger] path[i]) by {
        assert(is_finite(heat, path[i]));
        assert(is_first_lower_neighbor(heat, path[i], path[i - 1], map.latitudes(), map.longitudes()));
        assert(adjacent(path[i], path[i - 1], map.latitudes(), map.longitudes()));
        super::grid::lemma_adjacent_is_symmetric(path[i], path[i - 1], map.latitudes(), map.longitudes());
    }
}

/// The lowest distance that the heat map holds among `cells`: `UNREACHABLE` if
/// it holds none of them.
pub open spec fn is_lowest_distance(heat: Map<Coordinates, i32>, cells: Seq<Coordinates>, lowest: i32) -> bool {
    &&& forall|i: int|
        0 <= i < cells.len() && heat.contains_key(#[trigger] cells[i]) ==> lowest <= heat[cells[i]]
    &&& lowest == UNREACHABLE || exists|i: int|
        0 <= i < cells.len() && heat.contains_key(#[trigger] cells[i]) && heat[cells[i]] == lowest
}

/// A search in progress, breadth first. `frontier` lists, without repeats and
/// in the order of their distances, the cells that hold a distance; a trail of
/// as many steps leads to each of them; neighbours are at most one step apart;
/// the neighbours of the first `expanded` listed cells have all been looked at,
/// and no listed cell is more than one step beyond the next to be looked at.
#[verifier::opaque]
pub open spec fn is_search_state<P: Copy>(
    heat: Map<Coordinates, i32>,
    frontier: Seq<Coordinates>,
    expanded: int,
    map: &CoordinateMap<P>,
    home: Seq<char>,
    origin: Coordinates,
) -> bool {
    &&& map.wf()
    &&& is_flow_field(heat, map, home, origin)
    &&& 0 <= expanded <= frontier.len()
    &&& frontier.no_duplicates()
    &&& forall|i: int|
        0 <= i < frontier.len() ==> is_finite(heat, #[trigger] frontier[i]) && heat[frontier[i]] <= i
    &&& forall|coordinates: Coordinates|
        is_finite(heat, coordinates) ==> #[trigger] frontier.contains(coordinates)
    &&& forall|coordinates: Coordinates|
        is_finite(heat, coordinates) ==> #[trigger] has_trail_of(
            map,
            home,
            origin,
            coordinates,
            heat[coordinates] as int,
        )
    &&& forall|i: int, direction: int|
        0 <= i < expanded && 0 <= direction < 8 ==> heat.contains_key(
            #[trigger] neighbors_of(frontier[i], map.latitudes(), map.longitudes())[direction],
        )
    &&& forall|i: int, j: int|
        0 <= i <= j < frontier.len() ==> heat[#[trigger] frontier[i]] <= heat[#[trigger] frontier[j]]
    &&& expanded < frontier.len() ==> forall|i: int|
        0 <= i < frontier.len() ==> heat[#[trigger] frontier[i]] <= heat[frontier[expanded]] + 1
    &&& forall|coordinates: Coordinates, direction: int|
        is_finite(heat, coordinates) && 0 <= direction < 8 && is_finite(
            heat,
            #[trigger] neighbors_of(coordinates, map.latitudes(), map.longitudes())[direction],
        ) ==> heat[neighbors_of(coordinates, map.latitudes(), map.longitudes())[direction]]
            <= heat[coordinates] + 1
}

/// A search that has only its origin is a search in progress.
pub proof fn lemma_search_begins<P: Copy>(map: &CoordinateMap<P>, home: Seq<char>, origin: Coordinates)
    requires
        map.wf(),
        map.contains(origin),
    ensures
        is_search_state(
            Map::<Coordinates, i32>::empty().insert(origin, 0i32),
            seq![origin],
            0,
            map,
            home,
            origin,
        ),
{
    reveal(is_search_state);
    let heat = Map::<Coordinates, i32>::empty().insert(origin, 0i32);
    let frontier = seq![origin];
    assert(is_trail(seq![origin], map, home, origin, origin));
    assert(has_trail_of(map, home, origin, origin, 0));
    assert(frontier[0] == origin);
    assert forall|coordinates: Coordinates| is_finite(heat, coordinates) implies #[trigger] frontier.contains(
        coordinates,
    ) by {
        assert(frontier[0] == coordinates);
    }
}

/// The cells that a search has listed are no more than the grid holds.
pub proof fn lemma_frontier_is_bounded<P: Copy>(
    heat: Map<Coordinates, i32>,
    frontier: Seq<Coordinates>,
    expanded: int,
    map: &CoordinateMap<P>,
    home: Seq<char>,
    origin: Coordinates,
)
    requires
        is_search_state(heat, frontier, expanded, map, home, origin),
    ensures
        frontier.len() <= map.latitudes() * map.longitudes(),
        map.latitudes() * map.longitudes() <= 32767 * 32767,
{
    reveal(is_search_state);
    let width = map.longitudes();
    let height = map.latitudes();
    map.lemma_domain();
    lemma_cell_index_in_bounds(origin, height, width);
    let places = frontier.map_values(|coordinates: Coordinates| cell_index(coordinates, width));
    assert forall|i: int, j: int| 0 <= i < places.len() && 0 <= j < places.len() && i != j implies places[i]
        != places[j] by {
        assert(is_finite(heat, frontier[i]));
        assert(is_finite(heat, frontier[j]));
        if cell_index(frontier[i], width) == cell_index(frontier[j], width) {
            lemma_cell_index_is_injective(frontier[i], frontier[j], height, width);
        }
    }
    places.unique_seq_to_set();
    let all = vstd::set_lib::set_int_range(0, height * width);
    vstd::set_lib::lemma_int_range(0, height * width);
    assert forall|place: int| places.to_set().contains(place) implies all.contains(place) by {
        let i = choose|i: int| 0 <= i < places.len() && places[i] == place;
        assert(is_finite(heat, frontier[i]));
        lemma_cell_index_in_bounds(frontier[i], height, width);
    }
    vstd::set_lib::lemma_len_subset(places.to_set(), all);
}

/// A search stays a search when it marks a cell of another territory, which it
/// had not seen, as one that may not be entered.
pub proof fn lemma_search_marks<P: Copy>(
    heat: Map<Coordinates, i32>,
    frontier: Seq<Coordinates>,
    expanded: int,
    map: &CoordinateMap<P>,
    home: Seq<char>,
    origin: Coordinates,
    marked: Coordinates,
)
    requires
        is_search_state(heat, frontier, expanded, map, home, origin),
        map.contains(marked),
        !heat.contains_key(marked),
        in_other_territory(map, marked, home),
    ensures
        is_search_state(heat.insert(marked, UNREACHABLE), frontier, expanded, map, home, origin),
{
    reveal(is_search_state);
    let after = heat.insert(marked, UNREACHABLE);
    let height = map.latitudes();
    let width = map.longitudes();
    assert forall|coordinates: Coordinates| #[trigger]
        after.contains_key(coordinates) && after[coordinates] < UNREACHABLE && coordinates
            != origin implies has_lower_neighbor(after, coordinates, height, width) by {
        assert(heat.contains_key(coordinates));
        assert(has_lower_neighbor(heat, coordinates, height, width));
        let direction = choose|direction: int|
            0 <= direction < 8 && is_lower(
                heat,
                coordinates,
                #[trigger] neighbors_of(coordinates, height, width)[direction],
            );
        assert(is_lower(after, coordinates, neighbors_of(coordinates, height, width)[direction]));
    }
    assert forall|coordinates: Coordinates| is_finite(after, coordinates) implies #[trigger] frontier.contains(
        coordinates,
    ) by {
        assert(is_finite(heat, coordinates));
    }
    assert forall|coordinates: Coordinates| is_finite(after, coordinates) implies #[trigger] has_trail_of(
        map,
        home,
        origin,
        coordinates,
        after[coordinates] as int,
    ) by {
        assert(is_finite(heat, coordinates));
    }
    assert forall|i: int| 0 <= i < frontier.len() implies is_finite(after, #[trigger] frontier[i])
        && after[frontier[i]] == heat[frontier[i]] by {
        assert(is_finite(heat, frontier[i]));
    }
    assert forall|coordinates: Coordinates, direction: int|
        is_finite(after, coordinates) && 0 <= direction < 8 && is_finite(
            after,
            #[trigger] neighbors_of(coordinates, height, width)[direction],
        ) implies after[neighbors_of(coordinates, height, width)[direction]] <= after[coordinates]
        + 1 by {
        assert(is_finite(heat, coordinates));
        assert(is_finite(heat, neighbors_of(coordinates, height, width)[direction]));
    }
}

/// The lowest distance round a cell that a search has not seen, next to the cell
/// that the search is looking round, is the distance of that cell.
pub proof fn lemma_lowest_is_the_distance_of_the_expanded<P: Copy>(
    heat: Map<Coordinates, i32>,
    frontier: Seq<Coordinates>,
    expanded: int,
    map: &CoordinateMap<P>,
    home: Seq<char>,
    origin: Coordinates,
    direction: int,
    lowest: i32,
)
    requires
        is_search_state(heat, frontier, expanded, map, home, origin),
        0 <= expanded < frontier.len(),
        0 <= direction < 8,
        !heat.contains_key(neighbors_of(frontier[expanded], map.latitudes(), map.longitudes())[direction]),
        is_lowest_distance(
            heat,
            neighbors_of(
                neighbors_of(frontier[expanded], map.latitudes(), map.longitudes())[direction],
                map.latitudes(),
                map.longitudes(),
            ),
            lowest,
        ),
    ensures
        lowest == heat[frontier[expanded]],
        0 <= lowest,
        lowest + 1 < UNREACHABLE,
        forall|coordinates: Coordinates|
            is_finite(heat, coordinates) && adjacent(
                coordinates,
                neighbors_of(frontier[expanded], map.latitudes(), map.longitudes())[direction],
                map.latitudes(),
                map.longitudes(),
            ) ==> lowest <= #[trigger] heat[coordinates],
{
    reveal(is_search_state);
    let height = map.latitudes();
    let width = map.longitudes();
    let from = frontier[expanded];
    let cell = neighbors_of(from, height, width)[direction];
    let around = neighbors_of(cell, height, width);
    map.lemma_domain();
    lemma_frontier_is_bounded(heat, frontier, expanded, map, home, origin);
    assert(is_finite(heat, from));
    lemma_neighbors_in_grid(from, height, width);
    assert(adjacent(from, cell, height, width));
    super::grid::lemma_adjacent_is_symmetric(from, cell, height, width);
    lemma_neighbors_in_grid(cell, height, width);
    let back = choose|back: int| 0 <= back < 8 && #[trigger] around[back] == from;
    assert(heat.contains_key(around[back]));
    assert(lowest <= heat[from]);
    assert(heat[from] <= expanded);
    let lowest_at = choose|i: int|
        0 <= i < around.len() && heat.contains_key(#[trigger] around[i]) && heat[around[i]]
            == lowest;
    let least = around[lowest_at];
    assert(heat.contains_key(least));
    assert(lowest >= 0);
    if lowest < heat[from] {
        // A cell with a lower distance has been looked round already, and `cell`
        // with it.
        assert(is_finite(heat, least));
        assert(frontier.contains(least));
        let place = choose|i: int| 0 <= i < frontier.len() && frontier[i] == least;
        if place >= expanded {
            assert(heat[frontier[expanded]] <= heat[frontier[place]]);
        }
        assert(adjacent(cell, least, height, width));
        super::grid::lemma_adjacent_is_symmetric(cell, least, height, width);
        let way = choose|way: int|
            0 <= way < 8 && #[trigger] neighbors_of(least, height, width)[way] == cell;
        assert(heat.contains_key(neighbors_of(frontier[place], height, width)[way]));
        assert(false);
    }
    assert forall|coordinates: Coordinates|
        is_finite(heat, coordinates) && adjacent(coordinates, cell, height, width) implies lowest
        <= #[trigger] heat[coordinates] by {
        assert(map.contains(coordinates));
        super::grid::lemma_adjacent_is_symmetric(coordinates, cell, height, width);
        let at = choose|at: int| 0 <= at < 8 && #[trigger] around[at] == coordinates;
        assert(heat.contains_key(around[at]));
    }
}

/// A search stays a search when it gives a cell outside other territories,
/// which it had not seen, a distance one above that of the cell's lowest
/// neighbour, and lists the cell. That distance is one above that of the cell
/// that the search is looking round.
pub proof fn lemma_search_enqueues<P: Copy>(
    heat: Map<Coordinates, i32>,
    frontier: Seq<Coordinates>,
    expanded: int,
    map: &CoordinateMap<P>,
    home: Seq<char>,
    origin: Coordinates,
    direction: int,
    lowest: i32,
)
    requires
        is_search_state(heat, frontier, expanded, map, home, origin),
        0 <= expanded < frontier.len(),
        0 <= direction < 8,
        !heat.contains_key(neighbors_of(frontier[expanded], map.latitudes(), map.longitudes())[direction]),
        !in_other_territory(
            map,
            neighbors_of(frontier[expanded], map.latitudes(), map.longitudes())[direction],
            home,
        ),
        is_lowest_distance(
            heat,
            neighbors_of(
                neighbors_of(frontier[expanded], map.latitudes(), map.longitudes())[direction],
                map.latitudes(),
                map.longitudes(),
            ),
            lowest,
        ),
    ensures
        lowest == heat[frontier[expanded]],
        0 <= lowest,
        lowest + 1 < UNREACHABLE,
        is_search_state(
            heat.insert(
                neighbors_of(frontier[expanded], map.latitudes(), map.longitudes())[direction],
                (lowest + 1) as i32,
            ),
            frontier.push(neighbors_of(frontier[expanded], map.latitudes(), map.longitudes())[direction]),
            expanded,
            map,
            home,
            origin,
        ),
{
    reveal(is_search_state);
    let height = map.latitudes();
    let width = map.longitudes();
    let from = frontier[expanded];
    let cell = neighbors_of(from, height, width)[direction];
    let around = neighbors_of(cell, height, width);
    map.lemma_domain();
    lemma_lowest_is_the_distance_of_the_expanded(
        heat,
        frontier,
        expanded,
        map,
        home,
        origin,
        direction,
        lowest,
    );
    assert(is_finite(heat, from));
    lemma_neighbors_in_grid(from, height, width);
    assert(adjacent(from, cell, height, width));
    super::grid::lemma_adjacent_is_symmetric(from, cell, height, width);
    lemma_neighbors_in_grid(cell, height, width);
    let back = choose|back: int| 0 <= back < 8 && #[trigger] around[back] == from;
    let distance = (lowest + 1) as i32;
    let after = heat.insert(cell, distance);
    let listed = frontier.push(cell);

    assert forall|coordinates: Coordinates| #[trigger]
        after.contains_key(coordinates) && after[coordinates] < UNREACHABLE && coordinates
            != origin implies has_lower_neighbor(after, coordinates, height, width) by {
        if coordinates == cell {
            assert(is_lower(after, cell, neighbors_of(cell, height, width)[back]));
        } else {
            assert(heat.contains_key(coordinates));
            assert(has_lower_neighbor(heat, coordinates, height, width));
            let lower = choose|lower: int|
                0 <= lower < 8 && is_lower(
                    heat,
                    coordinates,
                    #[trigger] neighbors_of(coordinates, height, width)[lower],
                );
            assert(is_lower(after, coordinates, neighbors_of(coordinates, height, width)[lower]));
        }
    }
    assert(is_flow_field(after, map, home, origin));

    assert forall|i: int| 0 <= i < listed.len() implies is_finite(after, #[trigger] listed[i]) && after[listed[i]]
        <= i && after[listed[i]] <= distance && (i < frontier.len() ==> listed[i] == frontier[i]
        && after[listed[i]] == heat[frontier[i]]) by {
        if i < frontier.len() {
            assert(is_finite(heat, frontier[i]));
            assert(heat[frontier[i]] <= heat[frontier[expanded]] + 1);
        }
    }
    assert forall|i: int, j: int| 0 <= i < listed.len() && 0 <= j < listed.len() && i != j implies listed[i]
        != listed[j] by {
        if i < frontier.len() {
            assert(is_finite(heat, frontier[i]));
        }
        if j < frontier.len() {
            assert(is_finite(heat, frontier[j]));
        }
    }
    assert forall|coordinates: Coordinates| is_finite(after, coordinates) implies #[trigger] listed.contains(
        coordinates,
    ) by {
        if coordinates == cell {
            assert(listed[frontier.len() as int] == cell);
        } else {
            assert(is_finite(heat, coordinates));
            assert(frontier.contains(coordinates));
            let i = choose|i: int| 0 <= i < frontier.len() && frontier[i] == coordinates;
            assert(listed[i] == coordinates);
        }
    }
    assert forall|coordinates: Coordinates| is_finite(after, coordinates) implies #[trigger] has_trail_of(
        map,
        home,
        origin,
        coordinates,
        after[coordinates] as int,
    ) by {
        if coordinates == cell {
            assert(has_trail_of(map, home, origin, from, heat[from] as int));
            let trail = choose|trail: Seq<Coordinates>|
                is_trail(trail, map, home, origin, from) && trail.len() == heat[from] + 1;
            let longer = trail.push(cell);
            assert forall|i: int| 0 < i < longer.len() implies is_step(
                map,
                home,
                longer[i - 1],
                #[trigger] longer[i],
            ) by {
                if i < trail.len() {
                    assert(is_step(map, home, trail[i - 1], trail[i]));
                }
            }
            assert(is_trail(longer, map, home, origin, cell));
        } else {
            assert(is_finite(heat, coordinates));
            assert(has_trail_of(map, home, origin, coordinates, heat[coordinates] as int));
        }
    }
    assert forall|i: int, way: int| 0 <= i < expanded && 0 <= way < 8 implies after.contains_key(
        #[trigger] neighbors_of(listed[i], height, width)[way],
    ) by {
        assert(listed[i] == frontier[i]);
        assert(heat.contains_key(neighbors_of(frontier[i], height, width)[way]));
    }
    assert forall|i: int, j: int| 0 <= i <= j < listed.len() implies after[#[trigger] listed[i]]
        <= after[#[trigger] listed[j]] by {
        if j < frontier.len() {
            assert(heat[frontier[i]] <= heat[frontier[j]]);
        }
    }
    assert(listed[expanded] == frontier[expanded]);
    assert forall|coordinates: Coordinates, way: int|
        is_finite(after, coordinates) && 0 <= way < 8 && is_finite(
            after,
            #[trigger] neighbors_of(coordinates, height, width)[way],
        ) implies after[neighbors_of(coordinates, height, width)[way]] <= after[coordinates]
        + 1 by {
        let next = neighbors_of(coordinates, height, width)[way];
        if coordinates == cell {
            if next != cell {
                assert(is_finite(heat, next));
                assert(frontier.contains(next));
                let i = choose|i: int| 0 <= i < frontier.len() && frontier[i] == next;
                assert(heat[frontier[i]] <= heat[frontier[expanded]] + 1);
            }
        } else {
            assert(is_finite(heat, coordinates));
            if next == cell {
                assert(adjacent(coordinates, cell, height, width));
            } else {
                assert(is_finite(heat, next));
            }
        }
    }
}

/// Each cell that a search lists is a cell of the grid that holds a distance.
pub proof fn lemma_search_lists<P: Copy>(
    heat: Map<Coordinates, i32>,
    frontier: Seq<Coordinates>,
    expanded: int,
    map: &CoordinateMap<P>,
    home: Seq<char>,
    origin: Coordinates,
    place: int,
)
    requires
        is_search_state(heat, frontier, expanded, map, home, origin),
        0 <= place < frontier.len(),
    ensures
        0 <= expanded <= frontier.len(),
        is_finite(heat, frontier[place]),
        map.contains(frontier[place]),
{
    reveal(is_search_state);
    assert(is_finite(heat, frontier[place]));
}

/// A search has looked round a listed cell once all its neighbours are held.
pub proof fn lemma_search_expands<P: Copy>(
    heat: Map<Coordinates, i32>,
    frontier: Seq<Coordinates>,
    expanded: int,
    map: &CoordinateMap<P>,
    home: Seq<char>,
    origin: Coordinates,
)
    requires
        is_search_state(heat, frontier, expanded, map, home, origin),
        expanded < frontier.len(),
        forall|way: int|
            0 <= way < 8 ==> heat.contains_key(
                #[trigger] neighbors_of(frontier[expanded], map.latitudes(), map.longitudes())[way],
            ),
    ensures
        is_search_state(heat, frontier, expanded + 1, map, home, origin),
{
    reveal(is_search_state);
    if expanded + 1 < frontier.len() {
        assert forall|i: int| 0 <= i < frontier.len() implies heat[#[trigger] frontier[i]]
            <= heat[frontier[expanded + 1]] + 1 by {
            assert(heat[frontier[i]] <= heat[frontier[expanded]] + 1);
            assert(heat[frontier[expanded]] <= heat[frontier[expanded + 1]]);
        }
    }
}

/// What a search has found at any time: its heat map leads back to `origin`,
/// holds the distances of the shortest trails, and holds a distance only for
/// cells that a trail leads to.
pub proof fn lemma_search_results<P: Copy>(
    heat: Map<Coordinates, i32>,
    frontier: Seq<Coordinates>,
    expanded: int,
    map: &CoordinateMap<P>,
    home: Seq<char>,
    origin: Coordinates,
)
    requires
        is_search_state(heat, frontier, expanded, map, home, origin),
    ensures
        is_flow_field(heat, map, home, origin),
        holds_distances(heat, map, home, origin),
        forall|coordinates: Coordinates|
            is_finite(heat, coordinates) ==> #[trigger] reachable(map, home, origin, coordinates),
{
    lemma_search_holds_distances(heat, frontier, expanded, map, home, origin);
    reveal(is_search_state);
    assert forall|coordinates: Coordinates| is_finite(heat, coordinates) implies #[trigger] reachable(
        map,
        home,
        origin,
        coordinates,
    ) by {
        assert(has_trail_of(map, home, origin, coordinates, heat[coordinates] as int));
        let trail = choose|trail: Seq<Coordinates>|
            is_trail(trail, map, home, origin, coordinates) && trail.len() == heat[coordinates] + 1;
        assert(is_trail(trail, map, home, origin, coordinates));
    }
}

/// When the neighbours of every listed cell have been looked at, each cell that
/// a trail from `origin` leads to holds a distance.
pub proof fn lemma_search_is_exhaustive<P: Copy>(
    heat: Map<Coordinates, i32>,
    frontier: Seq<Coordinates>,
    map: &CoordinateMap<P>,
    home: Seq<char>,
    origin: Coordinates,
    trail: Seq<Coordinates>,
    upto: int,
)
    requires
        is_search_state(heat, frontier, frontier.len() as int, map, home, origin),
        is_trail(trail, map, home, origin, trail[trail.len() - 1]),
        0 <= upto < trail.len(),
    ensures
        is_finite(heat, trail[upto]),
    decreases upto,
{
    reveal(is_search_state);
    if upto > 0 {
        lemma_search_is_exhaustive(heat, frontier, map, home, origin, trail, upto - 1);
        let from = trail[upto - 1];
        let to = trail[upto];
        assert(is_step(map, home, from, to));
        assert(frontier.contains(from));
        let i = choose|i: int| 0 <= i < frontier.len() && frontier[i] == from;
        let direction = choose|direction: int|
            0 <= direction < 8 && #[trigger] neighbors_of(from, map.latitudes(), map.longitudes())[direction]
                == to;
        assert(heat.contains_key(neighbors_of(frontier[i], map.latitudes(), map.longitudes())[direction]));
    }
}

/// No trail reaches a cell in fewer steps than a search says: a cell that holds
/// a distance is not reached in fewer steps than that distance, and a cell that
/// the search has not seen is not reached in as few steps as the distance of
/// the cell that the search is looking round.
pub proof fn lemma_no_trail_is_shorter<P: Copy>(
    heat: Map<Coordinates, i32>,
    frontier: Seq<Coordinates>,
    expanded: int,
    map: &CoordinateMap<P>,
    home: Seq<char>,
    origin: Coordinates,
    trail: Seq<Coordinates>,
    upto: int,
)
    requires
        is_search_state(heat, frontier, expanded, map, home, origin),
        is_trail(trail, map, home, origin, trail[trail.len() - 1]),
        0 <= upto < trail.len(),
    ensures
        heat.contains_key(trail[upto]) ==> is_finite(heat, trail[upto]) && heat[trail[upto]] <= upto,
        !heat.contains_key(trail[upto]) ==> expanded < frontier.len() && heat[frontier[expanded]] + 1
            <= upto,
    decreases upto,
{
    reveal(is_search_state);
    let height = map.latitudes();
    let width = map.longitudes();
    if upto > 0 {
        lemma_no_trail_is_shorter(heat, frontier, expanded, map, home, origin, trail, upto - 1);
        let from = trail[upto - 1];
        let to = trail[upto];
        assert(is_step(map, home, from, to));
        let direction = choose|direction: int|
            0 <= direction < 8 && #[trigger] neighbors_of(from, height, width)[direction] == to;
        if heat.contains_key(from) {
            assert(is_finite(heat, from));
            assert(frontier.contains(from));
            let place = choose|i: int| 0 <= i < frontier.len() && frontier[i] == from;
            if heat.contains_key(to) {
                assert(is_finite(heat, to));
                assert(heat[neighbors_of(from, height, width)[direction]] <= heat[from] + 1);
            } else {
                if place < expanded {
                    assert(heat.contains_key(neighbors_of(frontier[place], height, width)[direction]));
                }
                assert(heat[frontier[expanded]] <= heat[frontier[place]]);
            }
        } else {
            if heat.contains_key(to) {
                assert(is_finite(heat, to));
                assert(frontier.contains(to));
                let place = choose|i: int| 0 <= i < frontier.len() && frontier[i] == to;
                assert(heat[frontier[place]] <= heat[frontier[expanded]] + 1);
            }
        }
    }
}

/// Whether the heat map holds every cell that a trail of fewer than `steps`
/// steps leads to.
pub open spec fn holds_all_within<P: Copy>(
    heat: Map<Coordinates, i32>,
    map: &CoordinateMap<P>,
    home: Seq<char>,
    origin: Coordinates,
    steps: int,
) -> bool {
    forall|trail: Seq<Coordinates>|
        is_trail(trail, map, home, origin, trail[trail.len() - 1]) && #[trigger] trail.len()
            <= steps ==> is_finite(heat, trail[trail.len() - 1])
}

/// A search has seen every cell that lies nearer than the cells that it has
/// yet to look round.
pub proof fn lemma_search_has_seen_the_nearer<P: Copy>(
    heat: Map<Coordinates, i32>,
    frontier: Seq<Coordinates>,
    expanded: int,
    map: &CoordinateMap<P>,
    home: Seq<char>,
    origin: Coordinates,
)
    requires
        is_search_state(heat, frontier, expanded, map, home, origin),
        expanded < frontier.len(),
    ensures
        holds_all_within(heat, map, home, origin, heat[frontier[expanded]] + 1),
{
    assert forall|trail: Seq<Coordinates>|
        is_trail(trail, map, home, origin, trail[trail.len() - 1]) && #[trigger] trail.len()
            <= heat[frontier[expanded]] + 1 implies is_finite(heat, trail[trail.len() - 1]) by {
        lemma_no_trail_is_shorter(
            heat,
            frontier,
            expanded,
            map,
            home,
            origin,
            trail,
            trail.len() - 1,
        );
    }
}

/// A search that has looked round every cell that it lists has seen every cell
/// that a trail leads to.
pub proof fn lemma_search_has_seen_all<P: Copy>(
    heat: Map<Coordinates, i32>,
    frontier: Seq<Coordinates>,
    map: &CoordinateMap<P>,
    home: Seq<char>,
    origin: Coordinates,
    steps: int,
)
    requires
        is_search_state(heat, frontier, frontier.len() as int, map, home, origin),
    ensures
        holds_all_within(heat, map, home, origin, steps),
{
    assert forall|trail: Seq<Coordinates>|
        is_trail(trail, map, home, origin, trail[trail.len() - 1]) && #[trigger] trail.len()
            <= steps implies is_finite(heat, trail[trail.len() - 1]) by {
        lemma_search_is_exhaustive(heat, frontier, map, home, origin, trail, trail.len() - 1);
    }
}

/// The distances of a search are the numbers of steps of the shortest trails.
pub proof fn lemma_search_holds_distances<P: Copy>(
    heat: Map<Coordinates, i32>,
    frontier: Seq<Coordinates>,
    expanded: int,
    map: &CoordinateMap<P>,
    home: Seq<char>,
    origin: Coordinates,
)
    requires
        is_search_state(heat, frontier, expanded, map, home, origin),
    ensures
        holds_distances(heat, map, home, origin),
{
    reveal(is_search_state);
    assert forall|coordinates: Coordinates| is_finite(heat, coordinates) implies #[trigger] is_distance(
        map,
        home,
        origin,
        coordinates,
        heat[coordinates] as int,
    ) by {
        assert(has_trail_of(map, home, origin, coordinates, heat[coordinates] as int));
        assert forall|trail: Seq<Coordinates>|
            is_trail(trail, map, home, origin, coordinates) implies #[trigger] trail.len()
            >= heat[coordinates] + 1 by {
            lemma_no_trail_is_shorter(
                heat,
                frontier,
                expanded,
                map,
                home,
                origin,
                trail,
                trail.len() - 1,
            );
        }
    }
}

/// The way down a heat map of distances is a shortest trail.
pub proof fn lemma_descent_is_shortest<P: Copy>(
    path: Seq<Coordinates>,
    heat: Map<Coordinates, i32>,
    map: &CoordinateMap<P>,
    home: Seq<char>,
    origin: Coordinates,
    destination: Coordinates,
)
    requires
        map.wf(),
        is_flow_field(heat, map, home, origin),
        holds_distances(heat, map, home, origin),
        is_descent(path, heat, origin, destination, map.latitudes(), map.longitudes()),
    ensures
        is_trail(path, map, home, origin, destination),
        path.len() == heat[destination] + 1,
        forall|trail: Seq<Coordinates>|
            is_trail(trail, map, home, origin, destination) ==> #[trigger] trail.len() >= path.len(),
{
    lemma_descent_is_trail(path, heat, map, home, origin, destination);
    lemma_descent_climbs(path, heat, origin, destination, map.latitudes(), map.longitudes(), path.len() - 1);
    assert(is_finite(heat, path[path.len() - 1]));
    assert(is_distance(map, home, origin, destination, heat[destination] as int));
}

/// Along the way down a heat map, told from `origin` on, each cell holds a
/// distance of at least its place.
pub proof fn lemma_descent_climbs(
    path: Seq<Coordinates>,
    heat: Map<Coordinates, i32>,
    origin: Coordinates,
    destination: Coordinates,
    num_of_latitudes: i16,
    num_of_longitudes: i16,
    upto: int,
)
    requires
        is_descent(path, heat, origin, destination, num_of_latitudes, num_of_longitudes),
        0 <= upto < path.len(),
        heat[origin] >= 0,
    ensures
        heat[path[upto]] >= upto,
    decreases upto,
{
    if upto > 0 {
        lemma_descent_climbs(
            path,
            heat,
            origin,
            destination,
            num_of_latitudes,
            num_of_longitudes,
            upto - 1,
        );
        assert(is_first_lower_neighbor(
            heat,
            path[upto],
            path[upto - 1],
            num_of_latitudes,
            num_of_longitudes,
        ));
    }
}

} // verus!
