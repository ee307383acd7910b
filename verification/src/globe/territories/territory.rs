//! A territory, who rules it and which troops stand in it.

use vstd::prelude::*;
use crate::globe::coordinates_system::surface_point::Coordinates;
use crate::player::player::{PlayerId, PlayerStaticInfo};
use super::roster::{is_mixed, listed, TroopId, TroopRoster};

verus! {

/// The name of a territory.
pub type TerritoryId = String;

/// The continents of the planet.
#[derive(Debug, Clone, Copy, PartialEq, Eq, Hash, Structural)]
pub enum Continent {
    Africa,
    Asia,
    Europe,
    NorthAmerica,
    Oceania,
    SouthAmerica,
    Antarctica,
    Special,
}

impl Continent {
    /// The name of the continent, in lower case with `_` between words.
    pub fn to_string(&self) -> (name: String)
        ensures
            name@ == match self {
                Continent::Africa => "africa"@,
                Continent::Asia => "asia"@,
                Continent::Europe => "europe"@,
                Continent::NorthAmerica => "north_america"@,
                Continent::Oceania => "oceania"@,
                Continent::SouthAmerica => "south_america"@,
                Continent::Antarctica => "antarctica"@,
                Continent::Special => "special"@,
            },
    {
        match self {
            Continent::Africa => "africa".to_owned(),
            Continent::Asia => "asia".to_owned(),
            Continent::Europe => "europe".to_owned(),
            Continent::NorthAmerica => "north_america".to_owned(),
            Continent::Oceania => "oceania".to_owned(),
            Continent::SouthAmerica => "south_america".to_owned(),
            Continent::Antarctica => "antarctica".to_owned(),
            Continent::Special => "special".to_owned(),
        }
    }
}

/// The parts of Asia.
#[derive(Debug, Clone, Copy, PartialEq, Eq, Hash, Structural)]
pub enum SubContinent {
    MiddleEast,
    InteriorAsia,
    IndianSubcontinent,
    SoutheastAsia,
    EastAsia,
    EuropeRelatedAsia,
}

impl SubContinent {
    /// The name of the subcontinent, in lower case with `_` between words.
    pub fn to_string(&self) -> (name: String)
        ensures
            name@ == match self {
                SubContinent::MiddleEast => "middle_east"@,
                SubContinent::InteriorAsia => "interior_asia"@,
                SubContinent::IndianSubcontinent => "indian_subcontinent"@,
                SubContinent::SoutheastAsia => "southeast_asia"@,
                SubContinent::EastAsia => "east_asia"@,
                SubContinent::EuropeRelatedAsia => "europe_related_asia"@,
            },
    {
        match self {
            SubContinent::MiddleEast => "middle_east".to_owned(),
            SubContinent::InteriorAsia => "interior_asia".to_owned(),
            SubContinent::IndianSubcontinent => "indian_subcontinent".to_owned(),
            SubContinent::SoutheastAsia => "southeast_asia".to_owned(),
            SubContinent::EastAsia => "east_asia".to_owned(),
            SubContinent::EuropeRelatedAsia => "europe_related_asia".to_owned(),
        }
    }
}

/// Where on the planet a territory lies.
#[derive(Debug, Clone, Copy, PartialEq, Eq, Structural)]
pub struct Location {
    pub continent: Continent,
    pub sub_continent: Option<SubContinent>,
}

/// How large a territory is, by the number of its cells.
#[derive(Debug, Clone, Copy, PartialEq, Eq, Hash, Structural)]
pub enum Size {
    Tiny,
    Small,
    Medium,
    Large,
    Huge,
    Humongous,
    /// The size of a territory without cells, or with more cells than any
    /// other size allows.
    NoSize,
}

impl Size {
    /// The size of a territory of `num_of_coordinates` cells.
    pub open spec fn of(num_of_coordinates: nat) -> Size {
        if 1 <= num_of_coordinates <= 40 {
            Size::Tiny
        } else if 41 <= num_of_coordinates <= 150 {
            Size::Small
        } else if 151 <= num_of_coordinates <= 450 {
            Size::Medium
        } else if 451 <= num_of_coordinates <= 750 {
            Size::Large
        } else if 751 <= num_of_coordinates <= 1000 {
            Size::Huge
        } else if 1001 <= num_of_coordinates <= 9999 {
            Size::Humongous
        } else {
            Size::NoSize
        }
    }

    /// The name of the size, in lower case.
    pub fn to_string(&self) -> (name: String)
        ensures
            name@ == match self {
                Size::Tiny => "tiny"@,
                Size::Small => "small"@,
                Size::Medium => "medium"@,
                Size::Large => "large"@,
                Size::Huge => "huge"@,
                Size::Humongous => "humongous"@,
                Size::NoSize => "none"@,
            },
    {
        match self {
            Size::Tiny => "tiny".to_owned(),
            Size::Small => "small".to_owned(),
            Size::Medium => "medium".to_owned(),
            Size::Large => "large".to_owned(),
            Size::Huge => "huge".to_owned(),
            Size::Humongous => "humongous".to_owned(),
            Size::NoSize => "none".to_owned(),
        }
    }
}

/// What can be the case of a territory: whether somebody holds it, is about
/// to, or fights over it.
#[derive(Debug, Clone, Copy, PartialEq, Eq, Hash, Structural)]
pub enum TerritoryState {
    Unoccupied,
    UnoccupiedUnderConflict,
    OccupationInProgress,
    Occupied,
    OccupiedUnderConflict,
}

/// The states that a territory is in, any number of them at once.
#[derive(Debug, Clone, Copy, PartialEq, Eq, Structural)]
pub struct TerritoryStates {
    pub unoccupied: bool,
    pub unoccupied_under_conflict: bool,
    pub occupation_in_progress: bool,
    pub occupied: bool,
    pub occupied_under_conflict: bool,
}

impl View for TerritoryStates {
    type V = Set<TerritoryState>;

    open spec fn view(&self) -> Set<TerritoryState> {
        Set::new(
            |state: TerritoryState|
                match state {
                    TerritoryState::Unoccupied => self.unoccupied,
                    TerritoryState::UnoccupiedUnderConflict => self.unoccupied_under_conflict,
                    TerritoryState::OccupationInProgress => self.occupation_in_progress,
                    TerritoryState::Occupied => self.occupied,
                    TerritoryState::OccupiedUnderConflict => self.occupied_under_conflict,
                },
        )
    }
}

impl TerritoryStates {
    /// No state at all.
    pub fn new() -> (states: Self)
        ensures
            states@ == Set::<TerritoryState>::empty(),
    {
        let states = TerritoryStates {
            unoccupied: false,
            unoccupied_under_conflict: false,
            occupation_in_progress: false,
            occupied: false,
            occupied_under_conflict: false,
        };
        assert(states@ =~= Set::<TerritoryState>::empty());
        states
    }

    /// These states and `state`.
    pub open spec fn with(self, state: TerritoryState) -> TerritoryStates {
        match state {
            TerritoryState::Unoccupied => TerritoryStates { unoccupied: true, ..self },
            TerritoryState::UnoccupiedUnderConflict => TerritoryStates {
                unoccupied_under_conflict: true,
                ..self
            },
            TerritoryState::OccupationInProgress => TerritoryStates {
                occupation_in_progress: true,
                ..self
            },
            TerritoryState::Occupied => TerritoryStates { occupied: true, ..self },
            TerritoryState::OccupiedUnderConflict => TerritoryStates {
                occupied_under_conflict: true,
                ..self
            },
        }
    }

    /// These states but `state`.
    pub open spec fn without(self, state: TerritoryState) -> TerritoryStates {
        match state {
            TerritoryState::Unoccupied => TerritoryStates { unoccupied: false, ..self },
            TerritoryState::UnoccupiedUnderConflict => TerritoryStates {
                unoccupied_under_conflict: false,
                ..self
            },
            TerritoryState::OccupationInProgress => TerritoryStates {
                occupation_in_progress: false,
                ..self
            },
            TerritoryState::Occupied => TerritoryStates { occupied: false, ..self },
            TerritoryState::OccupiedUnderConflict => TerritoryStates {
                occupied_under_conflict: false,
                ..self
            },
        }
    }

    /// Whether the territory is in `state`.
    pub fn contains(&self, state: &TerritoryState) -> (held: bool)
        ensures
            held == self@.contains(*state),
    {
        match state {
            TerritoryState::Unoccupied => self.unoccupied,
            TerritoryState::UnoccupiedUnderConflict => self.unoccupied_under_conflict,
            TerritoryState::OccupationInProgress => self.occupation_in_progress,
            TerritoryState::Occupied => self.occupied,
            TerritoryState::OccupiedUnderConflict => self.occupied_under_conflict,
        }
    }

    /// Puts the territory in `state`, besides the states that it is in.
    pub fn insert(&mut self, state: TerritoryState)
        ensures
            *final(self) == old(self).with(state),
            final(self)@ == old(self)@.insert(state),
    {
        match state {
            TerritoryState::Unoccupied => {
                self.unoccupied = true;
            },
            TerritoryState::UnoccupiedUnderConflict => {
                self.unoccupied_under_conflict = true;
            },
            TerritoryState::OccupationInProgress => {
                self.occupation_in_progress = true;
            },
            TerritoryState::Occupied => {
                self.occupied = true;
            },
            TerritoryState::OccupiedUnderConflict => {
                self.occupied_under_conflict = true;
            },
        }
        assert(self@ =~= old(self)@.insert(state));
    }

    /// Takes the territory out of `state`.
    pub fn remove(&mut self, state: &TerritoryState)
        ensures
            *final(self) == old(self).without(*state),
            final(self)@ == old(self)@.remove(*state),
    {
        match state {
            TerritoryState::Unoccupied => {
                self.unoccupied = false;
            },
            TerritoryState::UnoccupiedUnderConflict => {
                self.unoccupied_under_conflict = false;
            },
            TerritoryState::OccupationInProgress => {
                self.occupation_in_progress = false;
            },
            TerritoryState::Occupied => {
                self.occupied = false;
            },
            TerritoryState::OccupiedUnderConflict => {
                self.occupied_under_conflict = false;
            },
        }
        assert(self@ =~= old(self)@.remove(*state));
    }
}

/// The troops of a territory: those that were sent to it, and those of them
/// that have arrived.
#[derive(Debug)]
pub struct TerritoryTroops {
    all_troops_deployed: TroopRoster,
    all_troops_deployed_and_arrived: TroopRoster,
    has_troops_from_different_players: bool,
}

impl TerritoryTroops {
    /// The troops that were sent, arrived or not.
    pub closed spec fn deployed(&self) -> Seq<(PlayerId, Seq<char>)> {
        self.all_troops_deployed@
    }

    /// The troops that have arrived.
    pub closed spec fn arrived(&self) -> Seq<(PlayerId, Seq<char>)> {
        self.all_troops_deployed_and_arrived@
    }

    /// Whether troops of more than one player have arrived.
    pub open spec fn mixed(&self) -> bool {
        is_mixed(self.arrived())
    }

    /// Whether troops of more than one player are reported, which is noted apart
    /// from the troops themselves.
    pub closed spec fn reports_mixed(&self) -> bool {
        self.has_troops_from_different_players
    }

    /// No troop is listed twice.
    pub closed spec fn lists_wf(&self) -> bool {
        &&& self.all_troops_deployed.wf()
        &&& self.all_troops_deployed_and_arrived.wf()
    }

    /// No troop is listed twice, and troops of more than one player are
    /// reported exactly when such troops have arrived.
    pub open spec fn wf(&self) -> bool {
        &&& self.lists_wf()
        &&& self.reports_mixed() == self.mixed()
    }

    /// No troops.
    pub fn new() -> (troops: Self)
        ensures
            troops.wf(),
            troops.deployed() == Seq::<(PlayerId, Seq<char>)>::empty(),
            troops.arrived() == Seq::<(PlayerId, Seq<char>)>::empty(),
    {
        TerritoryTroops {
            all_troops_deployed: TroopRoster::new(),
            all_troops_deployed_and_arrived: TroopRoster::new(),
            has_troops_from_different_players: false,
        }
    }

    /// Whether troops of more than one player have arrived.
    pub fn get_has_troops_from_different_players(&self) -> (mixed: bool)
        requires
            self.wf(),
        ensures
            mixed == self.reports_mixed(),
            mixed == self.mixed(),
    {
        self.has_troops_from_different_players
    }

    /// The troops that were sent, arrived or not.
    pub fn get_all_troops_deployed(&self) -> (roster: &TroopRoster)
        ensures
            roster@ == self.deployed(),
    {
        &self.all_troops_deployed
    }

    /// The troops that have arrived.
    pub fn get_all_troops_deployed_and_arrived(&self) -> (roster: &TroopRoster)
        ensures
            roster@ == self.arrived(),
    {
        &self.all_troops_deployed_and_arrived
    }

    /// Notes that the troop `troop_id` of `player_id` was sent.
    pub fn add_deployment(&mut self, troop_id: &TroopId, player_id: PlayerId)
        requires
            old(self).wf(),
        ensures
            final(self).wf(),
            final(self).deployed() == listed(old(self).deployed(), (player_id, troop_id@)),
            final(self).arrived() == old(self).arrived(),
    {
        self.all_troops_deployed.insert(troop_id, player_id);
    }

    /// Notes that the troop `troop_id` of `player_id` has arrived.
    pub fn add_arrival(&mut self, troop_id: &TroopId, player_id: PlayerId)
        requires
            old(self).wf(),
        ensures
            final(self).wf(),
            final(self).deployed() == old(self).deployed(),
            final(self).arrived() == listed(old(self).arrived(), (player_id, troop_id@)),
    {
        self.all_troops_deployed_and_arrived.insert(troop_id, player_id);
        self.has_troops_from_different_players =
        self.all_troops_deployed_and_arrived.has_troops_from_different_players();
    }

    /// Notes that the troop `troop_id` of `player_id` has left, or will not come.
    pub fn remove(&mut self, troop_id: &TroopId, player_id: PlayerId)
        requires
            old(self).wf(),
        ensures
            final(self).wf(),
            !final(self).deployed().contains((player_id, troop_id@)),
            !final(self).arrived().contains((player_id, troop_id@)),
            final(self).deployed() == old(self).deployed().remove_value((player_id, troop_id@)),
            final(self).arrived() == old(self).arrived().remove_value((player_id, troop_id@)),
    {
        self.all_troops_deployed.remove(troop_id, player_id);
        self.all_troops_deployed_and_arrived.remove(troop_id, player_id);
        self.has_troops_from_different_players =
        self.all_troops_deployed_and_arrived.has_troops_from_different_players();
    }

    /// Reports troops of more than one player exactly when such troops have
    /// arrived, whatever was reported before. The troops stay as they are.
    pub fn refresh(&mut self)
        requires
            old(self).lists_wf(),
        ensures
            final(self).reports_mixed() == is_mixed(old(self).arrived()),
            final(self).wf(),
            final(self).deployed() == old(self).deployed(),
            final(self).arrived() == old(self).arrived(),
    {
        self.has_troops_from_different_players =
        self.all_troops_deployed_and_arrived.has_troops_from_different_players();
    }
}

/// A territory: the cells that make it up, the states it is in, its ruler, and
/// its troops.
#[derive(Debug)]
pub struct Territory {
    pub territory_id: TerritoryId,
    pub location: Location,
    pub coordinates: Vec<Coordinates>,
    pub size: Size,
    pub organic_max_troops: i32,
    pub territory_states: TerritoryStates,
    pub troops: TerritoryTroops,
    pub player_trying_to_conquer: Option<PlayerStaticInfo>,
    pub current_ruler: Option<PlayerStaticInfo>,
}

impl Territory {
    /// The troops that were sent to the territory, arrived or not.
    pub open spec fn deployed(&self) -> Seq<(PlayerId, Seq<char>)> {
        self.troops.deployed()
    }

    /// The troops that have arrived in the territory.
    pub open spec fn arrived(&self) -> Seq<(PlayerId, Seq<char>)> {
        self.troops.arrived()
    }

    /// Whether troops of more than one player have arrived in the territory.
    pub open spec fn mixed(&self) -> bool {
        self.troops.mixed()
    }

    /// Whether the territory reports troops of more than one player, which it
    /// notes apart from the troops themselves.
    pub open spec fn reports_mixed(&self) -> bool {
        self.troops.reports_mixed()
    }

    /// The troops of the territory are well-formed.
    pub open spec fn wf(&self) -> bool {
        self.troops.wf()
    }

    /// The player that rules the territory, if any.
    pub open spec fn ruler(&self) -> Option<PlayerId> {
        match self.current_ruler {
            Some(ruler_static_info) => Some(ruler_static_info.player_id),
            None => None,
        }
    }

    /// The territory with its size set by the number of its cells.
    pub open spec fn sized(self) -> Territory {
        Territory { size: Size::of(self.coordinates@.len()), ..self }
    }

    /// The territory with its conflict ended, if troops of one player at most
    /// have arrived; the territory as it is, if troops of more players have.
    pub open spec fn settled(self) -> Territory {
        if self.mixed() {
            self
        } else {
            Territory {
                territory_states: TerritoryStates {
                    occupied_under_conflict: false,
                    unoccupied_under_conflict: false,
                    ..self.territory_states
                },
                ..self
            }
        }
    }

    /// Whether `after` is the territory once the troop `entry` has left it, or is
    /// known not to come.
    pub open spec fn is_left_by(&self, after: &Territory, entry: (PlayerId, Seq<char>)) -> bool {
        &&& after.wf()
        &&& after.same_land_as(self)
        &&& after.deployed() == self.deployed().remove_value(entry)
        &&& after.arrived() == self.arrived().remove_value(entry)
    }

    /// Whether `after` is the territory once the troop `entry` has been sent to
    /// it.
    pub open spec fn is_promised(&self, after: &Territory, entry: (PlayerId, Seq<char>)) -> bool {
        &&& after.wf()
        &&& after.same_land_as(self)
        &&& after.deployed() == listed(self.deployed(), entry)
        &&& after.arrived() == self.arrived()
    }

    /// Whether `after` is the territory once the troop `entry` has been sent from
    /// it to itself.
    pub open spec fn is_left_and_promised(&self, after: &Territory, entry: (PlayerId, Seq<char>)) -> bool {
        &&& after.wf()
        &&& after.same_land_as(self)
        &&& after.deployed() == listed(self.deployed().remove_value(entry), entry)
        &&& after.arrived() == self.arrived().remove_value(entry)
    }

    /// Whether everything but the troops of the territory is the same in `self`
    /// and in `other`.
    pub open spec fn same_land_as(&self, other: &Territory) -> bool {
        &&& self.territory_id == other.territory_id
        &&& self.location == other.location
        &&& self.coordinates == other.coordinates
        &&& self.size == other.size
        &&& self.organic_max_troops == other.organic_max_troops
        &&& self.territory_states == other.territory_states
        &&& self.player_trying_to_conquer == other.player_trying_to_conquer
        &&& self.current_ruler == other.current_ruler
    }

    /// A territory as it is before the game starts: without cells, unoccupied,
    /// without ruler and without troops.
    pub fn get_base_territory(
        territory_id: &str,
        continent: Continent,
        sub_continent: Option<SubContinent>,
    ) -> (territory: Territory)
        ensures
            territory.wf(),
            territory.territory_id@ == territory_id@,
            territory.location == (Location { continent, sub_continent }),
            territory.coordinates@ == Seq::<Coordinates>::empty(),
            territory.size == Size::NoSize,
            territory.organic_max_troops == 0,
            territory.territory_states@ == set![TerritoryState::Unoccupied],
            territory.deployed() == Seq::<(PlayerId, Seq<char>)>::empty(),
            territory.arrived() == Seq::<(PlayerId, Seq<char>)>::empty(),
            territory.player_trying_to_conquer is None,
            territory.current_ruler is None,
    {
        let mut territory_states = TerritoryStates::new();
        territory_states.insert(TerritoryState::Unoccupied);
        assert(territory_states@ =~= set![TerritoryState::Unoccupied]);
        Territory {
            territory_id: territory_id.to_owned(),
            location: Location { continent, sub_continent },
            coordinates: Vec::new(),
            size: Size::NoSize,
            organic_max_troops: 0,
            territory_states,
            troops: TerritoryTroops::new(),
            player_trying_to_conquer: None,
            current_ruler: None,
        }
    }

    /// Sets the size of the territory by the number of its cells.
    pub fn set_territory_size(&mut self)
        ensures
            *final(self) == old(self).sized(),
    {
        let num_of_coordinates = self.coordinates.len();
        self.size = if 1 <= num_of_coordinates && num_of_coordinates <= 40 {
            Size::Tiny
        } else if 41 <= num_of_coordinates && num_of_coordinates <= 150 {
            Size::Small
        } else if 151 <= num_of_coordinates && num_of_coordinates <= 450 {
            Size::Medium
        } else if 451 <= num_of_coordinates && num_of_coordinates <= 750 {
            Size::Large
        } else if 751 <= num_of_coordinates && num_of_coordinates <= 1000 {
            Size::Huge
        } else if 1001 <= num_of_coordinates && num_of_coordinates <= 9999 {
            Size::Humongous
        } else {
            Size::NoSize
        };
    }

    /// Notes that the troop `troop_id` of `player_id` was sent to the territory.
    pub fn add_territory_deployment(&mut self, troop_id: &TroopId, player_id: PlayerId)
        requires
            old(self).wf(),
        ensures
            final(self).wf(),
            final(self).same_land_as(old(self)),
            final(self).deployed() == listed(old(self).deployed(), (player_id, troop_id@)),
            final(self).arrived() == old(self).arrived(),
    {
        self.troops.add_deployment(troop_id, player_id);
    }

    /// Notes that the troop `troop_id` of `player_id` has arrived in the
    /// territory.
    pub fn inform_troop_arrived(&mut self, troop_id: &TroopId, player_id: PlayerId)
        requires
            old(self).wf(),
        ensures
            final(self).wf(),
            final(self).same_land_as(old(self)),
            final(self).deployed() == old(self).deployed(),
            final(self).arrived() == listed(old(self).arrived(), (player_id, troop_id@)),
    {
        self.troops.add_arrival(troop_id, player_id);
    }

    /// Notes that the troop `troop_id` of `player_id` has left the territory, or
    /// will not come.
    pub fn inform_territory_departure(&mut self, troop_id: &TroopId, player_id: PlayerId)
        requires
            old(self).wf(),
        ensures
            final(self).wf(),
            final(self).same_land_as(old(self)),
            !final(self).deployed().contains((player_id, troop_id@)),
            !final(self).arrived().contains((player_id, troop_id@)),
            final(self).deployed() == old(self).deployed().remove_value((player_id, troop_id@)),
            final(self).arrived() == old(self).arrived().remove_value((player_id, troop_id@)),
    {
        self.troops.remove(troop_id, player_id);
    }

    /// Makes the territory report troops of more than one player exactly when
    /// such troops have arrived, whatever it reported before. The troops and
    /// the land stay as they are.
    pub fn set_troops_from_different_players_flag(&mut self)
        requires
            old(self).troops.lists_wf(),
        ensures
            final(self).reports_mixed() == is_mixed(old(self).arrived()),
            final(self).wf(),
            final(self).same_land_as(old(self)),
            final(self).deployed() == old(self).deployed(),
            final(self).arrived() == old(self).arrived(),
    {
        self.troops.refresh();
    }
}

/// The territories of the planet, by their names.
#[derive(Debug)]
pub struct Territories {
    ids: Vec<TerritoryId>,
    list: Vec<Territory>,
}

impl View for Territories {
    type V = Map<Seq<char>, Territory>;

    closed spec fn view(&self) -> Map<Seq<char>, Territory> {
        Map::new(
            |id: Seq<char>| exists|i: int| 0 <= i < self.ids@.len() && (#[trigger] self.ids@[i])@ == id,
            |id: Seq<char>|
                self.list@[choose|i: int| 0 <= i < self.ids@.len() && (#[trigger] self.ids@[i])@ == id],
        )
    }
}

impl Territories {
    /// Each name stands for one territory.
    pub closed spec fn names_wf(&self) -> bool {
        &&& self.ids@.len() == self.list@.len()
        &&& forall|i: int, j: int|
            0 <= i < self.ids@.len() && 0 <= j < self.ids@.len() && i != j ==> (
            #[trigger] self.ids@[i])@ != (#[trigger] self.ids@[j])@
    }

    /// Each name stands for one territory, and each territory is well-formed.
    pub open spec fn wf(&self) -> bool {
        &&& self.names_wf()
        &&& forall|id: Seq<char>| self@.contains_key(id) ==> (#[trigger] self@[id]).wf()
    }

    /// The names of the territories, in the order in which they were added.
    pub closed spec fn names(&self) -> Seq<Seq<char>> {
        Seq::new(self.ids@.len(), |i: int| self.ids@[i]@)
    }

    /// The names of the territories are the names that stand for a territory.
    pub proof fn lemma_names(&self)
        ensures
            forall|id: Seq<char>| self@.contains_key(id) <==> #[trigger] self.names().contains(id),
    {
        assert forall|id: Seq<char>| self@.contains_key(id) implies #[trigger] self.names().contains(id) by {
            let i = choose|i: int| 0 <= i < self.ids@.len() && (#[trigger] self.ids@[i])@ == id;
            assert(self.names()[i] == id);
        }
        assert forall|id: Seq<char>| #[trigger] self.names().contains(id) implies self@.contains_key(id) by {
            let i = choose|i: int| 0 <= i < self.names().len() && self.names()[i] == id;
            assert(self.ids@[i]@ == id);
        }
    }

    /// No territories.
    pub fn new() -> (territories: Self)
        ensures
            territories.wf(),
            territories@ == Map::<Seq<char>, Territory>::empty(),
    {
        let territories = Territories { ids: Vec::new(), list: Vec::new() };
        assert(territories@ =~= Map::<Seq<char>, Territory>::empty());
        territories
    }

    /// How many territories there are.
    pub fn len(&self) -> (count: usize)
        ensures
            count == self.names().len(),
    {
        self.ids.len()
    }

    /// The name of the territory that was added as the `index`-th.
    pub fn id_at(&self, index: usize) -> (territory_id: &TerritoryId)
        requires
            index < self.names().len(),
        ensures
            territory_id@ == self.names()[index as int],
    {
        &self.ids[index]
    }

    fn position(&self, territory_id: &TerritoryId) -> (place: Option<usize>)
        requires
            self.names_wf(),
        ensures
            match place {
                Some(index) => {
                    &&& index < self.ids@.len()
                    &&& self.ids@[index as int]@ == territory_id@
                    &&& self@.contains_key(territory_id@)
                    &&& self@[territory_id@] == self.list@[index as int]
                },
                None => !self@.contains_key(territory_id@),
            },
    {
        let mut index: usize = 0;
        while index < self.ids.len()
            invariant
                self.names_wf(),
                index <= self.ids@.len(),
                forall|i: int| 0 <= i < index ==> (#[trigger] self.ids@[i])@ != territory_id@,
            decreases self.ids@.len() - index,
        {
            if self.ids[index] == *territory_id {
                proof {
                    let chosen = choose|i: int|
                        0 <= i < self.ids@.len() && (#[trigger] self.ids@[i])@ == territory_id@;
                    assert(chosen == index);
                }
                return Some(index);
            }
            index = index + 1;
        }
        None
    }

    /// Whether `territory_id` stands for a territory.
    pub fn contains_key(&self, territory_id: &TerritoryId) -> (held: bool)
        requires
            self.names_wf(),
        ensures
            held == self@.contains_key(territory_id@),
    {
        self.position(territory_id).is_some()
    }

    /// The territory that `territory_id` stands for, if any.
    pub fn get(&self, territory_id: &TerritoryId) -> (found: Option<&Territory>)
        requires
            self.names_wf(),
        ensures
            match found {
                Some(territory) => self@.contains_key(territory_id@) && *territory
                    == self@[territory_id@],
                None => !self@.contains_key(territory_id@),
            },
    {
        match self.position(territory_id) {
            Some(index) => Some(&self.list[index]),
            None => None,
        }
    }

    /// The territory that `territory_id` stands for.
    pub fn get_existing(&self, territory_id: &TerritoryId) -> (territory: &Territory)
        requires
            self.names_wf(),
            self@.contains_key(territory_id@),
        ensures
            *territory == self@[territory_id@],
    {
        let index = match self.position(territory_id) {
            Some(index) => index,
            None => 0,
        };
        &self.list[index]
    }

    /// The territory that `territory_id` stands for, to be changed in place.
    pub fn get_mut(&mut self, territory_id: &TerritoryId) -> (territory: &mut Territory)
        requires
            old(self).names_wf(),
            old(self)@.contains_key(territory_id@),
        ensures
            *territory == old(self)@[territory_id@],
            final(self).names_wf(),
            final(self).names() == old(self).names(),
            final(self)@ == old(self)@.insert(territory_id@, *final(territory)),
    {
        let place = self.position(territory_id);
        let index = match place {
            Some(index) => index,
            None => 0,
        };
        let ghost before = *self;
        proof {
            assert forall|after: Self|
                after.ids == before.ids && after.list@ == before.list@.update(
                    index as int,
                    after.list@[index as int],
                ) implies #[trigger] after.names_wf() && after.names() == before.names() && after@
                == before@.insert(territory_id@, after.list@[index as int]) by {
                Self::lemma_view_after_update(before, after, territory_id@, index as int);
            }
        }
        &mut self.list[index]
    }

    /// Makes `territory_id` stand for `territory`, in place of the territory that
    /// it stood for, if any.
    pub fn insert(&mut self, territory_id: TerritoryId, territory: Territory)
        requires
            old(self).names_wf(),
        ensures
            final(self).names_wf(),
            final(self)@ == old(self)@.insert(territory_id@, territory),
            final(self).names() == if old(self)@.contains_key(territory_id@) {
                old(self).names()
            } else {
                old(self).names().push(territory_id@)
            },
    {
        match self.position(&territory_id) {
            Some(index) => {
                self.list.set(index, territory);
                proof {
                    Self::lemma_view_after_update(*old(self), *self, territory_id@, index as int);
                }
            },
            None => {
                self.ids.push(territory_id);
                self.list.push(territory);
                proof {
                    Self::lemma_view_after_push(*old(self), *self, territory_id@);
                    assert(self.names() =~= old(self).names().push(territory_id@));
                }
            },
        }
    }

    /// Sets the size of every territory by the number of its cells.
    pub fn set_territory_sizes(&mut self)
        requires
            old(self).wf(),
        ensures
            final(self).wf(),
            final(self).names() == old(self).names(),
            final(self)@.dom() == old(self)@.dom(),
            forall|id: Seq<char>|
                old(self)@.contains_key(id) ==> #[trigger] final(self)@[id] == old(self)@[id].sized(),
    {
        let mut index: usize = 0;
        while index < self.list.len()
            invariant
                old(self).wf(),
                self.ids == old(self).ids,
                self.list@.len() == old(self).list@.len(),
                index <= self.list@.len(),
                forall|i: int| 0 <= i < index ==> #[trigger] self.list@[i] == old(self).list@[i].sized(),
                forall|i: int|
                    index <= i < self.list@.len() ==> #[trigger] self.list@[i] == old(self).list@[i],
            decreases self.list@.len() - index,
        {
            self.list[index].set_territory_size();
            index = index + 1;
        }
        proof {
            assert(self.names() =~= old(self).names());
            assert(final(self)@.dom() =~= old(self)@.dom());
            assert forall|id: Seq<char>| old(self)@.contains_key(id) implies #[trigger] self@[id] == old(self)@[id].sized() && self@[id].wf() by {
                let chosen = choose|i: int|
                    0 <= i < old(self).ids@.len() && (#[trigger] old(self).ids@[i])@ == id;
                assert(self.list@[chosen] == old(self).list@[chosen].sized());
                assert(old(self)@[id].wf());
            }
        }
    }

    /// Ends the conflict in every territory where troops of one player at most
    /// have arrived.
    pub fn settle_conflicts(&mut self)
        requires
            old(self).wf(),
        ensures
            final(self).wf(),
            final(self).names() == old(self).names(),
            final(self)@.dom() == old(self)@.dom(),
            forall|id: Seq<char>|
                old(self)@.contains_key(id) ==> #[trigger] final(self)@[id] == old(self)@[id].settled(),
    {
        let mut index: usize = 0;
        while index < self.list.len()
            invariant
                old(self).wf(),
                self.ids == old(self).ids,
                self.list@.len() == old(self).list@.len(),
                index <= self.list@.len(),
                forall|i: int| 0 <= i < index ==> #[trigger] self.list@[i] == old(self).list@[i].settled(),
                forall|i: int|
                    index <= i < self.list@.len() ==> #[trigger] self.list@[i] == old(self).list@[i],
            decreases self.list@.len() - index,
        {
            proof {
                let id = old(self).ids@[index as int]@;
                let chosen = choose|i: int|
                    0 <= i < old(self).ids@.len() && (#[trigger] old(self).ids@[i])@ == id;
                assert(chosen == index);
                assert(old(self)@.contains_key(id));
                assert(old(self)@[id].wf());
            }
            if !self.list[index].troops.get_has_troops_from_different_players() {
                self.list[index].territory_states.occupied_under_conflict = false;
                self.list[index].territory_states.unoccupied_under_conflict = false;
            }
            index = index + 1;
        }
        proof {
            assert(self.names() =~= old(self).names());
            assert(final(self)@.dom() =~= old(self)@.dom());
            assert forall|id: Seq<char>| old(self)@.contains_key(id) implies #[trigger] self@[id] == old(self)@[id].settled() && self@[id].wf() by {
                let chosen = choose|i: int|
                    0 <= i < old(self).ids@.len() && (#[trigger] old(self).ids@[i])@ == id;
                assert(self.list@[chosen] == old(self).list@[chosen].settled());
                assert(old(self)@[id].wf());
            }
        }
    }

    proof fn lemma_view_after_update(before: Self, after: Self, id: Seq<char>, index: int)
        requires
            before.names_wf(),
            0 <= index < before.ids@.len(),
            before.ids@[index]@ == id,
            after.ids == before.ids,
            after.list@ == before.list@.update(index, after.list@[index]),
        ensures
            after.names_wf(),
            after.names() == before.names(),
            after@ == before@.insert(id, after.list@[index]),
    {
        assert(after.list@.len() == before.list@.len());
        assert forall|name: Seq<char>| #[trigger] after@.contains_key(name) implies after@[name]
            == before@.insert(id, after.list@[index])[name] by {
            let chosen = choose|i: int| 0 <= i < after.ids@.len() && (#[trigger] after.ids@[i])@ == name;
            if name == id {
                assert(chosen == index);
            } else {
                assert(chosen != index);
            }
        }
        assert(after@ =~= before@.insert(id, after.list@[index]));
    }

    proof fn lemma_view_after_push(before: Self, after: Self, id: Seq<char>)
        requires
            before.names_wf(),
            !before@.contains_key(id),
            after.ids@.len() == before.ids@.len() + 1,
            after.list@.len() == before.list@.len() + 1,
            after.ids@[before.ids@.len() as int]@ == id,
            forall|i: int| 0 <= i < before.ids@.len() ==> after.ids@[i] == before.ids@[i],
            forall|i: int| 0 <= i < before.list@.len() ==> after.list@[i] == before.list@[i],
        ensures
            after.names_wf(),
            after@ == before@.insert(id, after.list@[before.list@.len() as int]),
    {
        let last = before.ids@.len() as int;
        assert forall|i: int, j: int|
            0 <= i < after.ids@.len() && 0 <= j < after.ids@.len() && i != j implies (
        #[trigger] after.ids@[i])@ != (#[trigger] after.ids@[j])@ by {
            if i < last && j < last {
                assert(before.ids@[i]@ != before.ids@[j]@);
            } else if i < last {
                assert(before.ids@[i]@ != id);
            } else {
                assert(before.ids@[j]@ != id);
            }
        }
        let target = before@.insert(id, after.list@[last]);
        assert forall|name: Seq<char>| after@.contains_key(name) <==> target.contains_key(name) by {
            if after@.contains_key(name) {
                let i = choose|i: int| 0 <= i < after.ids@.len() && (#[trigger] after.ids@[i])@ == name;
                if i < last {
                    assert(before.ids@[i]@ == name);
                }
            }
            if target.contains_key(name) {
                if name == id {
                    assert(after.ids@[last]@ == name);
                } else {
                    let i = choose|i: int|
                        0 <= i < before.ids@.len() && (#[trigger] before.ids@[i])@ == name;
                    assert(after.ids@[i]@ == name);
                }
            }
        }
        assert forall|name: Seq<char>| #[trigger] after@.contains_key(name) implies after@[name]
            == target[name] by {
            let chosen = choose|i: int| 0 <= i < after.ids@.len() && (#[trigger] after.ids@[i])@ == name;
            if name == id {
                if chosen != last {
                    assert(before.ids@[chosen]@ == id);
                }
            } else {
                assert(chosen != last);
                assert(before.ids@[chosen]@ == name);
                let old_chosen = choose|i: int|
                    0 <= i < before.ids@.len() && (#[trigger] before.ids@[i])@ == name;
                assert(old_chosen == chosen);
            }
        }
        assert(after@ =~= target);
    }
}

} // verus!
