//! The planet as the simulation sees it: its grid and its territories.

use vstd::prelude::*;
use crate::globe::territories::territory::{
    Territories, Territory, TerritoryId, TerritoryState, TerritoryStates,
};
use crate::player::player::Player;
use super::coordinates_system::{cell_index, lemma_cell_index_in_bounds, with_owner, CoordinateMap};
use super::grid::in_grid;
use super::surface_point::{Coordinates, SurfacePointMetadata};

verus! {

/// The planet: the grid of its surface, the metadata of its surface points, and
/// its territories.
pub struct VirtualPlanet<P> {
    pub is_ready_for_physics: bool,
    /// Whether the surface points have been matched with the territories.
    pub are_surface_points_matched: bool,
    pub has_surface_points_matching_started: bool,
    pub territories: Territories,
    pub surface_points_metadata: Vec<SurfacePointMetadata<P>>,
    pub coordinate_map: CoordinateMap<P>,
}

/// The cells of a territory among which a troop picks where to patrol to: all
/// but the last, and the only one where there is only one.
pub open spec fn patrol_candidates(territory_coordinates: Seq<Coordinates>) -> Seq<Coordinates> {
    if territory_coordinates.len() >= 2 {
        territory_coordinates.drop_last()
    } else {
        territory_coordinates
    }
}

/// A number below `upper`, drawn by `fastrand::usize` from the range that
/// starts at 0 and ends before `upper`. The range must not be empty, or
/// `fastrand::usize` panics. Nothing else is claimed of the number: it differs
/// from call to call.
#[verifier::external_body]
fn random_index_below(upper: usize) -> (index: usize)
    requires
        upper > 0,
    ensures
        index < upper,
{
    fastrand::usize(0..upper)
}

/// The cell of a territory that the draw `random_index` picks.
pub fn pick_territory_coordinate(territory_coordinates: &Vec<Coordinates>, random_index: usize) -> (picked:
    Coordinates)
    requires
        random_index < patrol_candidates(territory_coordinates@).len(),
    ensures
        picked == patrol_candidates(territory_coordinates@)[random_index as int],
        picked == territory_coordinates@[random_index as int],
{
    territory_coordinates[random_index]
}

/// A cell of a territory, drawn at random among those that a troop patrols to.
pub fn get_random_coordinate(territory_coordinates: &Vec<Coordinates>) -> (picked: Coordinates)
    requires
        territory_coordinates@.len() > 0,
    ensures
        patrol_candidates(territory_coordinates@).contains(picked),
        territory_coordinates@.contains(picked),
{
    let random_index = if territory_coordinates.len() >= 2 {
        random_index_below(territory_coordinates.len() - 1)
    } else {
        0
    };
    pick_territory_coordinate(territory_coordinates, random_index)
}

impl<P: Copy> VirtualPlanet<P> {
    /// The grid and the territories are well-formed.
    pub open spec fn wf(&self) -> bool {
        &&& self.territories.wf()
        &&& self.coordinate_map.wf()
    }

    /// The metadata of the surface point at the `index`-th cell of a grid that
    /// is laid out latitude by latitude, before any territory owns the cell.
    pub open spec fn blank_metadata(cartesians: Seq<P>, num_of_longitudes: i16, coordinates: Coordinates) -> SurfacePointMetadata<P> {
        SurfacePointMetadata {
            cartesian: cartesians[cell_index(coordinates, num_of_longitudes)],
            lat_long: coordinates,
            territory_id: None,
        }
    }

    /// A planet with the given territories, whose grid has not been laid out yet.
    pub fn new(territories: Territories) -> (planet: Self)
        requires
            territories.wf(),
        ensures
            planet.wf(),
            !planet.is_ready_for_physics,
            !planet.are_surface_points_matched,
            !planet.has_surface_points_matching_started,
            planet.territories == territories,
            planet.surface_points_metadata@.len() == 0,
            planet.coordinate_map.latitudes() == 0,
            planet.coordinate_map.longitudes() == 0,
    {
        VirtualPlanet {
            is_ready_for_physics: false,
            are_surface_points_matched: false,
            has_surface_points_matching_started: false,
            territories,
            surface_points_metadata: Vec::new(),
            coordinate_map: CoordinateMap::empty(),
        }
    }

    /// The number of latitudes of the grid of the planet of the game.
    pub fn get_num_of_latitudes() -> (count: i16)
        ensures
            count == 225,
    {
        225
    }

    /// The number of longitudes of the grid of the planet of the game.
    pub fn get_num_of_longitudes() -> (count: i16)
        ensures
            count == 450,
    {
        450
    }

    /// Lays out the grid: `num_of_latitudes` by `num_of_longitudes` cells that no
    /// territory owns, the cell at latitude `i` and longitude `j` at
    /// `cartesians[i * num_of_longitudes + j]`. The metadata of one surface point
    /// for each cell, latitude by latitude, is added to those that the planet
    /// holds.
    pub fn populate_surface_points_and_coordinate_map(
        &mut self,
        num_of_latitudes: i16,
        num_of_longitudes: i16,
        cartesians: &Vec<P>,
    )
        requires
            num_of_latitudes >= 0,
            num_of_longitudes >= 0,
            cartesians@.len() == num_of_latitudes * num_of_longitudes,
            old(self).territories.wf(),
        ensures
            final(self).wf(),
            final(self).territories == old(self).territories,
            final(self).is_ready_for_physics == old(self).is_ready_for_physics,
            final(self).are_surface_points_matched == old(self).are_surface_points_matched,
            final(self).has_surface_points_matching_started == old(self).has_surface_points_matching_started,
            final(self).coordinate_map.latitudes() == num_of_latitudes,
            final(self).coordinate_map.longitudes() == num_of_longitudes,
            forall|coordinates: Coordinates|
                in_grid(coordinates, num_of_latitudes, num_of_longitudes) ==> {
                    &&& (#[trigger] final(self).coordinate_map@[coordinates]).territory_id is None
                    &&& final(self).coordinate_map@[coordinates].cartesian == cartesians@[cell_index(
                        coordinates,
                        num_of_longitudes,
                    )]
                },
            final(self).surface_points_metadata@.len() == old(self).surface_points_metadata@.len()
                + num_of_latitudes * num_of_longitudes,
            forall|i: int|
                0 <= i < old(self).surface_points_metadata@.len() ==> final(self).surface_points_metadata@[i] == old(self).surface_points_metadata@[i],
            forall|coordinates: Coordinates|
                in_grid(coordinates, num_of_latitudes, num_of_longitudes) ==> final(self).surface_points_metadata@[old(self).surface_points_metadata@.len() + #[trigger] cell_index(
                    coordinates,
                    num_of_longitudes,
                )] == Self::blank_metadata(cartesians@, num_of_longitudes, coordinates),
    {
        self.coordinate_map = CoordinateMap::new(num_of_latitudes, num_of_longitudes, cartesians);
        let ghost held = old(self).surface_points_metadata@.len();
        let mut lat: i16 = 0;
        while lat < num_of_latitudes
            invariant
                0 <= lat <= num_of_latitudes,
                num_of_longitudes >= 0,
                cartesians@.len() == num_of_latitudes * num_of_longitudes,
                held == old(self).surface_points_metadata@.len(),
                self.territories == old(self).territories,
                self.is_ready_for_physics == old(self).is_ready_for_physics,
                self.are_surface_points_matched == old(self).are_surface_points_matched,
                self.has_surface_points_matching_started == old(self).has_surface_points_matching_started,
                self.coordinate_map.wf(),
                self.coordinate_map.latitudes() == num_of_latitudes,
                self.coordinate_map.longitudes() == num_of_longitudes,
                forall|coordinates: Coordinates|
                    in_grid(coordinates, num_of_latitudes, num_of_longitudes) ==> {
                        &&& (#[trigger] self.coordinate_map@[coordinates]).territory_id is None
                        &&& self.coordinate_map@[coordinates].cartesian == cartesians@[cell_index(
                            coordinates,
                            num_of_longitudes,
                        )]
                    },
                self.surface_points_metadata@.len() == held + lat * num_of_longitudes,
                forall|i: int|
                    0 <= i < held ==> self.surface_points_metadata@[i] == old(self).surface_points_metadata@[i],
                forall|coordinates: Coordinates|
                    in_grid(coordinates, lat, num_of_longitudes) ==> self.surface_points_metadata@[held
                        + #[trigger] cell_index(coordinates, num_of_longitudes)] == Self::blank_metadata(
                        cartesians@,
                        num_of_longitudes,
                        coordinates,
                    ),
            decreases num_of_latitudes - lat,
        {
            let mut long: i16 = 0;
            while long < num_of_longitudes
                invariant
                    0 <= lat < num_of_latitudes,
                    0 <= long <= num_of_longitudes,
                    cartesians@.len() == num_of_latitudes * num_of_longitudes,
                    held == old(self).surface_points_metadata@.len(),
                    self.territories == old(self).territories,
                    self.is_ready_for_physics == old(self).is_ready_for_physics,
                    self.are_surface_points_matched == old(self).are_surface_points_matched,
                    self.has_surface_points_matching_started == old(self).has_surface_points_matching_started,
                    self.coordinate_map.wf(),
                    self.coordinate_map.latitudes() == num_of_latitudes,
                    self.coordinate_map.longitudes() == num_of_longitudes,
                    forall|coordinates: Coordinates|
                        in_grid(coordinates, num_of_latitudes, num_of_longitudes) ==> {
                            &&& (#[trigger] self.coordinate_map@[coordinates]).territory_id is None
                            &&& self.coordinate_map@[coordinates].cartesian == cartesians@[cell_index(
                                coordinates,
                                num_of_longitudes,
                            )]
                        },
                    self.surface_points_metadata@.len() == held + lat * num_of_longitudes + long,
                    forall|i: int|
                        0 <= i < held ==> self.surface_points_metadata@[i] == old(self).surface_points_metadata@[i],
                    forall|coordinates: Coordinates|
                        in_grid(coordinates, lat, num_of_longitudes) || (coordinates.0 == lat && 0
                            <= coordinates.1 < long) ==> self.surface_points_metadata@[held
                            + #[trigger] cell_index(coordinates, num_of_longitudes)]
                            == Self::blank_metadata(cartesians@, num_of_longitudes, coordinates),
                decreases num_of_longitudes - long,
            {
                let lat_long = (lat, long);
                proof {
                    lemma_cell_index_in_bounds(lat_long, num_of_latitudes, num_of_longitudes);
                    assert forall|coordinates: Coordinates|
                        in_grid(coordinates, lat, num_of_longitudes) implies cell_index(
                        coordinates,
                        num_of_longitudes,
                    ) < lat * num_of_longitudes by {
                        lemma_cell_index_in_bounds(coordinates, lat, num_of_longitudes);
                    }
                }
                let index = (lat as usize) * (num_of_longitudes as usize) + (long as usize);
                let cartesian = cartesians[index];
                self.surface_points_metadata.push(
                    SurfacePointMetadata { cartesian, lat_long, territory_id: None },
                );
                long = long + 1;
            }
            proof {
                assert((lat + 1) * num_of_longitudes == lat * num_of_longitudes + num_of_longitudes)
                    by (nonlinear_arith);
            }
            lat = lat + 1;
        }
    }

    /// Where the cell at `given_coordinates` lies in space.
    pub fn get_cartesian_from_coordinates(&self, given_coordinates: &Coordinates) -> (cartesian: P)
        requires
            self.coordinate_map.wf(),
            self.coordinate_map.contains(*given_coordinates),
        ensures
            cartesian == self.coordinate_map@[*given_coordinates].cartesian,
    {
        self.coordinate_map.get_cartesian_from_coordinates(given_coordinates)
    }

    /// The cell of a territory at which its troops come into being: the one a
    /// quarter of the way through its cells.
    pub fn get_spawner_territory_coordinate(territory: &Territory) -> (coordinates: Coordinates)
        requires
            territory.coordinates@.len() > 0,
        ensures
            coordinates == territory.coordinates@[territory.coordinates@.len() as int / 4],
    {
        let territory_point = territory.coordinates.len() / 4;
        territory.coordinates[territory_point]
    }

    /// A cell of the territory `territory_id`, drawn at random among those that a
    /// troop patrols to.
    pub fn get_an_random_territory_coordinate(&self, territory_id: &TerritoryId) -> (coordinates:
        Coordinates)
        requires
            self.territories.names_wf(),
            self.territories@.contains_key(territory_id@),
            self.territories@[territory_id@].coordinates@.len() > 0,
        ensures
            patrol_candidates(self.territories@[territory_id@].coordinates@).contains(coordinates),
            self.territories@[territory_id@].coordinates@.contains(coordinates),
    {
        match self.territories.get(territory_id) {
            Some(territory) => get_random_coordinate(&territory.coordinates),
            None => (0, 0),
        }
    }

    /// The territory that `territory_id` stands for.
    pub fn get_territory_from_virtual_planet(&self, territory_id: &TerritoryId) -> (territory: &Territory)
        requires
            self.territories.names_wf(),
            self.territories@.contains_key(territory_id@),
        ensures
            *territory == self.territories@[territory_id@],
    {
        self.territories.get_existing(territory_id)
    }

    /// The territory that `territory_id` stands for, to be changed in place.
    pub fn get_mut_territory_from_virtual_planet(&mut self, territory_id: &TerritoryId) -> (territory:
        &mut Territory)
        requires
            old(self).territories.names_wf(),
            old(self).territories@.contains_key(territory_id@),
        ensures
            *territory == old(self).territories@[territory_id@],
            final(self).territories.names_wf(),
            final(self).territories.names() == old(self).territories.names(),
            final(self).territories@ == old(self).territories@.insert(territory_id@, *final(territory)),
            final(self).coordinate_map == old(self).coordinate_map,
            final(self).surface_points_metadata == old(self).surface_points_metadata,
            final(self).is_ready_for_physics == old(self).is_ready_for_physics,
            final(self).are_surface_points_matched == old(self).are_surface_points_matched,
            final(self).has_surface_points_matching_started == old(self).has_surface_points_matching_started,
    {
        self.territories.get_mut(territory_id)
    }

    /// Gives the surface point at `lat_long` to the territory `territory_id`, if
    /// there is such a territory: the cell is added to those of the territory
    /// and the grid names the territory as its owner. The result is then the
    /// cell at which the troops of the territory come into being. Where there is
    /// no such territory, nothing changes.
    pub fn match_surface_point_and_territory(&mut self, lat_long: Coordinates, territory_id: &TerritoryId) -> (spawner:
        Option<Coordinates>)
        requires
            old(self).wf(),
            old(self).coordinate_map.contains(lat_long),
        ensures
            final(self).wf(),
            final(self).surface_points_metadata == old(self).surface_points_metadata,
            final(self).is_ready_for_physics == old(self).is_ready_for_physics,
            final(self).are_surface_points_matched == old(self).are_surface_points_matched,
            final(self).has_surface_points_matching_started == old(self).has_surface_points_matching_started,
            final(self).territories.names() == old(self).territories.names(),
            final(self).coordinate_map.latitudes() == old(self).coordinate_map.latitudes(),
            final(self).coordinate_map.longitudes() == old(self).coordinate_map.longitudes(),
            !old(self).territories@.contains_key(territory_id@) ==> {
                &&& spawner is None
                &&& final(self).territories@ == old(self).territories@
                &&& final(self).coordinate_map@ == old(self).coordinate_map@
            },
            old(self).territories@.contains_key(territory_id@) ==> {
                let before = old(self).territories@[territory_id@];
                let cells = before.coordinates@.push(lat_long);
                &&& spawner == Some(cells[cells.len() as int / 4])
                &&& final(self).territories@.dom() == old(self).territories@.dom()
                &&& forall|id: Seq<char>|
                    old(self).territories@.contains_key(id) && id != territory_id@
                        ==> #[trigger] final(self).territories@[id] == old(self).territories@[id]
                &&& final(self).territories@[territory_id@].coordinates@ == cells
                &&& final(self).territories@[territory_id@].troops == before.troops
                &&& final(self).territories@[territory_id@].same_land_as(
                    &Territory { coordinates: final(self).territories@[territory_id@].coordinates, ..before },
                )
                &&& final(self).coordinate_map@ == with_owner(
                    old(self).coordinate_map@,
                    lat_long,
                    *territory_id,
                )
            },
    {
        if !self.territories.contains_key(territory_id) {
            return None;
        }
        let ghost before = old(self).territories@[territory_id@];
        let overlapped_territory = self.territories.get_mut(territory_id);
        overlapped_territory.coordinates.push(lat_long);
        let spawner = Self::get_spawner_territory_coordinate(overlapped_territory);
        let _ = self.coordinate_map.set_owner(lat_long, territory_id.clone());
        proof {
            assert(before.wf());
            assert(final(self).territories@.dom() =~= old(self).territories@.dom());
        }
        Some(spawner)
    }

    /// Sets the size of every territory by the number of its cells.
    pub fn set_territory_sizes(&mut self)
        requires
            old(self).territories.wf(),
        ensures
            final(self).territories.wf(),
            final(self).territories.names() == old(self).territories.names(),
            final(self).territories@.dom() == old(self).territories@.dom(),
            forall|id: Seq<char>|
                old(self).territories@.contains_key(id) ==> #[trigger] final(self).territories@[id] == old(self).territories@[id].sized(),
            final(self).coordinate_map == old(self).coordinate_map,
            final(self).surface_points_metadata == old(self).surface_points_metadata,
            final(self).is_ready_for_physics == old(self).is_ready_for_physics,
            final(self).are_surface_points_matched == old(self).are_surface_points_matched,
            final(self).has_surface_points_matching_started == old(self).has_surface_points_matching_started,
    {
        self.territories.set_territory_sizes();
    }

    /// Makes `player` the ruler of `territory`: the territory is occupied and no
    /// longer anything else, nobody is trying to conquer it, and the player rules
    /// one territory more and may have as many more troops as the territory can
    /// hold.
    pub fn set_new_territory_ruler(territory: &mut Territory, player: &mut Player)
        requires
            old(player).territory_counter < i32::MAX,
            i32::MIN <= old(player).max_troop_allowed + old(territory).organic_max_troops <= i32::MAX,
        ensures
            final(player).max_troop_allowed == old(player).max_troop_allowed + old(territory).organic_max_troops,
            final(player).territory_counter == old(player).territory_counter + 1,
            final(player).static_info == old(player).static_info,
            final(player).language == old(player).language,
            final(player).troops_counter == old(player).troops_counter,
            final(player).alive == old(player).alive,
            final(territory).player_trying_to_conquer is None,
            final(territory).current_ruler == Some(old(player).static_info),
            final(territory).territory_states == (TerritoryStates {
                unoccupied: false,
                unoccupied_under_conflict: false,
                occupation_in_progress: false,
                occupied: true,
                occupied_under_conflict: false,
            }),
            final(territory).territory_id == old(territory).territory_id,
            final(territory).location == old(territory).location,
            final(territory).coordinates == old(territory).coordinates,
            final(territory).size == old(territory).size,
            final(territory).organic_max_troops == old(territory).organic_max_troops,
            final(territory).troops == old(territory).troops,
    {
        let territory_id = territory.territory_id.clone();
        player.max_troop_allowed = player.max_troop_allowed + territory.organic_max_troops;
        player.register_territory_occupation(territory_id);
        territory.player_trying_to_conquer = None;
        territory.current_ruler = Some(player.static_info.clone());
        territory.territory_states.remove(&TerritoryState::Unoccupied);
        territory.territory_states.remove(&TerritoryState::OccupationInProgress);
        territory.territory_states.remove(&TerritoryState::OccupiedUnderConflict);
        territory.territory_states.remove(&TerritoryState::UnoccupiedUnderConflict);
        territory.territory_states.insert(TerritoryState::Occupied);
    }

    /// Ends the conflict in every territory where troops of one player at most
    /// have arrived.
    pub fn check_territory_under_conflict(&mut self)
        requires
            old(self).territories.wf(),
        ensures
            final(self).territories.wf(),
            final(self).territories.names() == old(self).territories.names(),
            final(self).territories@.dom() == old(self).territories@.dom(),
            forall|id: Seq<char>|
                old(self).territories@.contains_key(id) ==> #[trigger] final(self).territories@[id] == old(self).territories@[id].settled(),
            final(self).coordinate_map == old(self).coordinate_map,
            final(self).surface_points_metadata == old(self).surface_points_metadata,
            final(self).is_ready_for_physics == old(self).is_ready_for_physics,
            final(self).are_surface_points_matched == old(self).are_surface_points_matched,
            final(self).has_surface_points_matching_started == old(self).has_surface_points_matching_started,
    {
        self.territories.settle_conflicts();
    }
}

} // verus!
