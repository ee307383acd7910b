//! The closed grid: how cells neighbour each other across its edges.

use vstd::prelude::*;
use super::surface_point::Coordinates;

verus! {

/// The index after `index` on a closed axis of `count` cells.
pub open spec fn wrap_next(index: i16, count: i16) -> i16 {
    if index == count - 1 {
        0i16
    } else {
        (index + 1) as i16
    }
}

/// The index before `index` on a closed axis of `count` cells.
pub open spec fn wrap_previous(index: i16, count: i16) -> i16 {
    if index == 0 {
        (count - 1) as i16
    } else {
        (index - 1) as i16
    }
}

/// Whether `coordinates` names a cell of a grid of the given size.
pub open spec fn in_grid(coordinates: Coordinates, num_of_latitudes: i16, num_of_longitudes: i16) -> bool {
    &&& 0 <= coordinates.0 < num_of_latitudes
    &&& 0 <= coordinates.1 < num_of_longitudes
}

/// The eight neighbours of a cell, in the order in which they are visited:
/// the four along the axes, then the four diagonals. Each axis is closed, so a
/// step over an edge comes back in at the opposite edge.
pub open spec fn neighbors_of(
    coordinates: Coordinates,
    num_of_latitudes: i16,
    num_of_longitudes: i16,
) -> Seq<Coordinates> {
    let latitude = coordinates.0;
    let longitude = coordinates.1;
    let latitude_east = wrap_next(latitude, num_of_latitudes);
    let latitude_west = wrap_previous(latitude, num_of_latitudes);
    let longitude_north = wrap_next(longitude, num_of_longitudes);
    let longitude_south = wrap_previous(longitude, num_of_longitudes);
    seq![
        (latitude, longitude_north),
        (latitude, longitude_south),
        (latitude_east, longitude),
        (latitude_west, longitude),
        (latitude_east, longitude_north),
        (latitude_west, longitude_north),
        (latitude_east, longitude_south),
        (latitude_west, longitude_south),
    ]
}

/// Whether `to` is one of the eight neighbours of `from`.
pub open spec fn adjacent(
    from: Coordinates,
    to: Coordinates,
    num_of_latitudes: i16,
    num_of_longitudes: i16,
) -> bool {
    exists|direction: int|
        0 <= direction < 8 && #[trigger] neighbors_of(from, num_of_latitudes, num_of_longitudes)[direction]
            == to
}

/// The neighbours of a cell of the grid are eight cells of the grid.
pub proof fn lemma_neighbors_in_grid(
    coordinates: Coordinates,
    num_of_latitudes: i16,
    num_of_longitudes: i16,
)
    requires
        in_grid(coordinates, num_of_latitudes, num_of_longitudes),
    ensures
        neighbors_of(coordinates, num_of_latitudes, num_of_longitudes).len() == 8,
        forall|direction: int|
            0 <= direction < 8 ==> in_grid(
                #[trigger] neighbors_of(coordinates, num_of_latitudes, num_of_longitudes)[direction],
                num_of_latitudes,
                num_of_longitudes,
            ),
{
}

/// On a grid of at least three latitudes and three longitudes the eight
/// neighbours of a cell are eight different cells, and none of them is the cell
/// itself.
pub proof fn lemma_neighbors_are_distinct(
    coordinates: Coordinates,
    num_of_latitudes: i16,
    num_of_longitudes: i16,
)
    requires
        in_grid(coordinates, num_of_latitudes, num_of_longitudes),
        num_of_latitudes >= 3,
        num_of_longitudes >= 3,
    ensures
        neighbors_of(coordinates, num_of_latitudes, num_of_longitudes).no_duplicates(),
        !neighbors_of(coordinates, num_of_latitudes, num_of_longitudes).contains(coordinates),
{
}

/// Neighbourhood is mutual: a cell is a neighbour of each of its neighbours.
pub proof fn lemma_adjacent_is_symmetric(
    from: Coordinates,
    to: Coordinates,
    num_of_latitudes: i16,
    num_of_longitudes: i16,
)
    requires
        in_grid(from, num_of_latitudes, num_of_longitudes),
        adjacent(from, to, num_of_latitudes, num_of_longitudes),
    ensures
        in_grid(to, num_of_latitudes, num_of_longitudes),
        adjacent(to, from, num_of_latitudes, num_of_longitudes),
{
    let direction = choose|direction: int|
        0 <= direction < 8 && #[trigger] neighbors_of(from, num_of_latitudes, num_of_longitudes)[direction]
            == to;
    let back = neighbors_of(to, num_of_latitudes, num_of_longitudes);
    let opposite: int = if direction == 0 {
        1
    } else if direction == 1 {
        0
    } else if direction == 2 {
        3
    } else if direction == 3 {
        2
    } else if direction == 4 {
        7
    } else if direction == 5 {
        6
    } else if direction == 6 {
        5
    } else {
        4
    };
    assert(back[opposite] == from);
}

/// The index after `index` on a closed axis of `count` cells.
pub fn step_next(index: i16, count: i16) -> (next: i16)
    requires
        0 <= index < count,
    ensures
        next == wrap_next(index, count),
{
    if index == count - 1 {
        0
    } else {
        index + 1
    }
}

/// The index before `index` on a closed axis of `count` cells.
pub fn step_previous(index: i16, count: i16) -> (previous: i16)
    requires
        0 <= index < count,
    ensures
        previous == wrap_previous(index, count),
{
    if index == 0 {
        count - 1
    } else {
        index - 1
    }
}

/// The eight neighbours of a cell of a grid of the given size.
pub fn get_neighbors(
    current_coordinate: Coordinates,
    num_of_latitudes: i16,
    num_of_longitudes: i16,
) -> (neighbors: [Coordinates; 8])
    requires
        in_grid(current_coordinate, num_of_latitudes, num_of_longitudes),
    ensures
        neighbors@ == neighbors_of(current_coordinate, num_of_latitudes, num_of_longitudes),
{
    let (latitude, longitude) = current_coordinate;
    let latitude_east = step_next(latitude, num_of_latitudes);
    let latitude_west = step_previous(latitude, num_of_latitudes);
    let longitude_north = step_next(longitude, num_of_longitudes);
    let longitude_south = step_previous(longitude, num_of_longitudes);
    let neighbors = [
        (latitude, longitude_north),
        (latitude, longitude_south),
        (latitude_east, longitude),
        (latitude_west, longitude),
        (latitude_east, longitude_north),
        (latitude_west, longitude_north),
        (latitude_east, longitude_south),
        (latitude_west, longitude_south),
    ];
    assert(neighbors@ =~= neighbors_of(current_coordinate, num_of_latitudes, num_of_longitudes));
    neighbors
}

} // verus!
