//! The heat map of a search: how far each visited cell lies from the origin.

use std::collections::HashMap;
use vstd::prelude::*;
use super::surface_point::Coordinates;

verus! {

broadcast use vstd::std_specs::hash::group_hash_axioms;

/// The distance that marks a cell which the search may not enter.
pub const UNREACHABLE: i32 = 2147483647;

/// The key under which a cell is stored.
pub open spec fn key_of(coordinates: Coordinates) -> int {
    coordinates.0 * 65536 + coordinates.1
}

/// Distances from the origin of a search, by cell. A cell that the search may
/// not enter holds `UNREACHABLE`; a cell that the search has not seen holds
/// nothing.
pub struct HeatMap {
    distances: HashMap<u32, i32>,
}

impl View for HeatMap {
    type V = Map<Coordinates, i32>;

    closed spec fn view(&self) -> Map<Coordinates, i32> {
        Map::new(
            |coordinates: Coordinates|
                coordinates.0 >= 0 && coordinates.1 >= 0 && self.distances@.contains_key(
                    key_of(coordinates) as u32,
                ),
            |coordinates: Coordinates| self.distances@[key_of(coordinates) as u32],
        )
    }
}

impl HeatMap {
    /// A heat map that holds no cell.
    pub fn new() -> (heat_map: Self)
        ensures
            heat_map@ == Map::<Coordinates, i32>::empty(),
    {
        let heat_map = HeatMap { distances: HashMap::new() };
        assert(heat_map@ =~= Map::<Coordinates, i32>::empty());
        heat_map
    }

    /// Forgets every cell.
    pub fn clear(&mut self)
        ensures
            final(self)@ == Map::<Coordinates, i32>::empty(),
    {
        self.distances.clear();
        assert(self@ =~= Map::<Coordinates, i32>::empty());
    }

    /// Whether the heat map holds `coordinates`.
    pub fn contains_key(&self, coordinates: Coordinates) -> (held: bool)
        ensures
            held == self@.contains_key(coordinates),
    {
        if coordinates.0 < 0 || coordinates.1 < 0 {
            return false;
        }
        let key: u32 = (coordinates.0 as u32) * 65536 + (coordinates.1 as u32);
        self.distances.contains_key(&key)
    }

    /// The distance held for `coordinates`, if any.
    pub fn get(&self, coordinates: Coordinates) -> (distance: Option<i32>)
        ensures
            distance == if self@.contains_key(coordinates) {
                Some(self@[coordinates])
            } else {
                None
            },
    {
        if coordinates.0 < 0 || coordinates.1 < 0 {
            return None;
        }
        let key: u32 = (coordinates.0 as u32) * 65536 + (coordinates.1 as u32);
        match self.distances.get(&key) {
            Some(distance) => Some(*distance),
            None => None,
        }
    }

    /// Holds `distance` for `coordinates`, in place of what was held for them.
    /// Coordinates below zero name no cell, and nothing is held for them.
    pub fn insert(&mut self, coordinates: Coordinates, distance: i32)
        ensures
            final(self)@ == if coordinates.0 >= 0 && coordinates.1 >= 0 {
                old(self)@.insert(coordinates, distance)
            } else {
                old(self)@
            },
    {
        if coordinates.0 < 0 || coordinates.1 < 0 {
            return;
        }
        let key: u32 = (coordinates.0 as u32) * 65536 + (coordinates.1 as u32);
        self.distances.insert(key, distance);
        assert(self@ =~= old(self)@.insert(coordinates, distance));
    }
}

} // verus!
