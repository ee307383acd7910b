use expansionists::globe::territories::roster::TroopRoster;
use expansionists::globe::territories::territory::{
    Continent, Location, Size, SubContinent, Territories, Territory, TerritoryState,
    TerritoryStates,
};

fn territory(name: &str) -> Territory {
    Territory::get_base_territory(name, Continent::Africa, None)
}

#[test]
fn roster_lists_each_troop_once_in_order_of_arrival() {
    let mut roster = TroopRoster::new();
    assert_eq!(roster.len(), 0);
    roster.insert(&"a".to_string(), 1);
    roster.insert(&"b".to_string(), 2);
    roster.insert(&"a".to_string(), 1);
    roster.insert(&"c".to_string(), 1);
    assert_eq!(roster.len(), 3);
    assert_eq!(roster.position(&"a".to_string(), 1), Some(0));
    assert_eq!(roster.position(&"b".to_string(), 2), Some(1));
    assert_eq!(roster.position(&"c".to_string(), 1), Some(2));
    assert_eq!(roster.position(&"a".to_string(), 2), None);
    assert!(roster.contains(&"b".to_string(), 2));
    assert!(!roster.contains(&"b".to_string(), 1));
    assert_eq!(roster.troops_of(1), vec!["a".to_string(), "c".to_string()]);
    assert_eq!(roster.troops_of(2), vec!["b".to_string()]);
    assert_eq!(roster.troops_of(3), Vec::<String>::new());
}

#[test]
fn roster_removes_a_troop_and_keeps_the_order_of_the_others() {
    let mut roster = TroopRoster::new();
    roster.insert(&"a".to_string(), 1);
    roster.insert(&"b".to_string(), 2);
    roster.insert(&"c".to_string(), 1);
    roster.remove(&"a".to_string(), 1);
    assert_eq!(roster.len(), 2);
    assert_eq!(roster.position(&"b".to_string(), 2), Some(0));
    assert_eq!(roster.position(&"c".to_string(), 1), Some(1));
    roster.remove(&"zzz".to_string(), 1);
    assert_eq!(roster.len(), 2);
}

#[test]
fn roster_is_mixed_with_troops_of_two_players() {
    let mut roster = TroopRoster::new();
    assert!(!roster.has_troops_from_different_players());
    roster.insert(&"a".to_string(), 1);
    roster.insert(&"b".to_string(), 1);
    assert!(!roster.has_troops_from_different_players());
    roster.insert(&"c".to_string(), 2);
    assert!(roster.has_troops_from_different_players());
    roster.remove(&"c".to_string(), 2);
    assert!(!roster.has_troops_from_different_players());
}

#[test]
fn roster_finds_the_first_other_player() {
    let mut roster = TroopRoster::new();
    assert_eq!(roster.first_other_player(1), None);
    roster.insert(&"a".to_string(), 1);
    assert_eq!(roster.first_other_player(1), None);
    roster.insert(&"b".to_string(), 3);
    roster.insert(&"c".to_string(), 2);
    assert_eq!(roster.first_other_player(1), Some(3));
    assert_eq!(roster.first_other_player(3), Some(1));
}

#[test]
fn territory_states_are_a_set() {
    let mut states = TerritoryStates::new();
    assert!(!states.contains(&TerritoryState::Unoccupied));
    states.insert(TerritoryState::Unoccupied);
    states.insert(TerritoryState::OccupationInProgress);
    states.insert(TerritoryState::Unoccupied);
    assert!(states.contains(&TerritoryState::Unoccupied));
    assert!(states.contains(&TerritoryState::OccupationInProgress));
    assert!(!states.contains(&TerritoryState::Occupied));
    states.remove(&TerritoryState::Unoccupied);
    states.remove(&TerritoryState::OccupiedUnderConflict);
    assert!(!states.contains(&TerritoryState::Unoccupied));
    assert!(states.contains(&TerritoryState::OccupationInProgress));
}

#[test]
fn base_territory_is_unoccupied_and_empty() {
    let territory = Territory::get_base_territory(
        "lut_desert",
        Continent::Asia,
        Some(SubContinent::MiddleEast),
    );
    assert_eq!(territory.territory_id, "lut_desert");
    assert_eq!(
        territory.location,
        Location {
            continent: Continent::Asia,
            sub_continent: Some(SubContinent::MiddleEast)
        }
    );
    assert!(territory.coordinates.is_empty());
    assert_eq!(territory.size, Size::NoSize);
    assert_eq!(territory.organic_max_troops, 0);
    assert!(territory.territory_states.contains(&TerritoryState::Unoccupied));
    assert!(!territory.territory_states.contains(&TerritoryState::Occupied));
    assert!(!territory
        .territory_states
        .contains(&TerritoryState::OccupationInProgress));
    assert!(!territory
        .territory_states
        .contains(&TerritoryState::UnoccupiedUnderConflict));
    assert!(!territory
        .territory_states
        .contains(&TerritoryState::OccupiedUnderConflict));
    assert_eq!(territory.troops.get_all_troops_deployed().len(), 0);
    assert_eq!(territory.troops.get_all_troops_deployed_and_arrived().len(), 0);
    assert!(!territory.troops.get_has_troops_from_different_players());
    assert!(territory.player_trying_to_conquer.is_none());
    assert!(territory.current_ruler.is_none());
}

#[test]
fn territory_size_by_number_of_coordinates() {
    let cases: [(usize, Size); 15] = [
        (0, Size::NoSize),
        (1, Size::Tiny),
        (40, Size::Tiny),
        (41, Size::Small),
        (150, Size::Small),
        (151, Size::Medium),
        (450, Size::Medium),
        (451, Size::Large),
        (750, Size::Large),
        (751, Size::Huge),
        (1000, Size::Huge),
        (1001, Size::Humongous),
        (9999, Size::Humongous),
        (10000, Size::NoSize),
        (20000, Size::NoSize),
    ];
    for (count, size) in cases {
        let mut territory = territory("sahara");
        territory.coordinates = vec![(0, 0); count];
        territory.set_territory_size();
        assert_eq!(territory.size, size);
        assert_eq!(territory.coordinates.len(), count);
    }
}

#[test]
fn names_of_continents_subcontinents_and_sizes() {
    assert_eq!(Continent::Africa.to_string(), "africa");
    assert_eq!(Continent::Asia.to_string(), "asia");
    assert_eq!(Continent::Europe.to_string(), "europe");
    assert_eq!(Continent::NorthAmerica.to_string(), "north_america");
    assert_eq!(Continent::Oceania.to_string(), "oceania");
    assert_eq!(Continent::SouthAmerica.to_string(), "south_america");
    assert_eq!(Continent::Antarctica.to_string(), "antarctica");
    assert_eq!(Continent::Special.to_string(), "special");
    assert_eq!(SubContinent::MiddleEast.to_string(), "middle_east");
    assert_eq!(SubContinent::InteriorAsia.to_string(), "interior_asia");
    assert_eq!(
        SubContinent::IndianSubcontinent.to_string(),
        "indian_subcontinent"
    );
    assert_eq!(SubContinent::SoutheastAsia.to_string(), "southeast_asia");
    assert_eq!(SubContinent::EastAsia.to_string(), "east_asia");
    assert_eq!(
        SubContinent::EuropeRelatedAsia.to_string(),
        "europe_related_asia"
    );
    assert_eq!(Size::Tiny.to_string(), "tiny");
    assert_eq!(Size::Small.to_string(), "small");
    assert_eq!(Size::Medium.to_string(), "medium");
    assert_eq!(Size::Large.to_string(), "large");
    assert_eq!(Size::Huge.to_string(), "huge");
    assert_eq!(Size::Humongous.to_string(), "humongous");
    assert_eq!(Size::NoSize.to_string(), "none");
}

#[test]
fn deployment_arrival_and_departure_are_kept_apart() {
    let mut territory = territory("sahel");
    territory.add_territory_deployment(&"t1".to_string(), 1);
    assert!(territory
        .troops
        .get_all_troops_deployed()
        .contains(&"t1".to_string(), 1));
    assert!(!territory
        .troops
        .get_all_troops_deployed_and_arrived()
        .contains(&"t1".to_string(), 1));
    territory.inform_troop_arrived(&"t1".to_string(), 1);
    assert!(territory
        .troops
        .get_all_troops_deployed_and_arrived()
        .contains(&"t1".to_string(), 1));
    territory.inform_territory_departure(&"t1".to_string(), 1);
    assert_eq!(territory.troops.get_all_troops_deployed().len(), 0);
    assert_eq!(territory.troops.get_all_troops_deployed_and_arrived().len(), 0);
    assert_eq!(territory.territory_id, "sahel");
}

#[test]
fn territory_turns_mixed_when_a_second_player_arrives_and_back_when_it_leaves() {
    let mut territory = territory("sahel");
    territory.inform_troop_arrived(&"t1".to_string(), 1);
    territory.inform_troop_arrived(&"t2".to_string(), 1);
    assert!(!territory.troops.get_has_troops_from_different_players());
    territory.add_territory_deployment(&"e1".to_string(), 2);
    assert!(!territory.troops.get_has_troops_from_different_players());
    territory.inform_troop_arrived(&"e1".to_string(), 2);
    assert!(territory.troops.get_has_troops_from_different_players());
    territory.inform_territory_departure(&"e1".to_string(), 2);
    assert!(!territory.troops.get_has_troops_from_different_players());
    territory.set_troops_from_different_players_flag();
    assert!(!territory.troops.get_has_troops_from_different_players());
}

#[test]
fn territories_are_found_by_name() {
    let mut territories = Territories::new();
    assert_eq!(territories.len(), 0);
    assert!(!territories.contains_key(&"sahel".to_string()));
    assert!(territories.get(&"sahel".to_string()).is_none());
    territories.insert("sahel".to_string(), territory("sahel"));
    territories.insert("horn".to_string(), territory("horn"));
    assert_eq!(territories.len(), 2);
    assert_eq!(territories.id_at(0), "sahel");
    assert_eq!(territories.id_at(1), "horn");
    assert!(territories.contains_key(&"horn".to_string()));
    assert_eq!(
        territories.get(&"horn".to_string()).unwrap().territory_id,
        "horn"
    );
    assert_eq!(
        territories.get_existing(&"sahel".to_string()).territory_id,
        "sahel"
    );
    assert!(territories.get(&"andes".to_string()).is_none());
}

#[test]
fn inserting_under_a_known_name_replaces_the_territory() {
    let mut territories = Territories::new();
    territories.insert("sahel".to_string(), territory("sahel"));
    territories.insert("horn".to_string(), territory("horn"));
    let mut replacement = territory("sahel");
    replacement.organic_max_troops = 9;
    territories.insert("sahel".to_string(), replacement);
    assert_eq!(territories.len(), 2);
    assert_eq!(territories.id_at(0), "sahel");
    assert_eq!(
        territories.get(&"sahel".to_string()).unwrap().organic_max_troops,
        9
    );
    assert_eq!(
        territories.get(&"horn".to_string()).unwrap().organic_max_troops,
        0
    );
}

#[test]
fn a_territory_is_changed_in_place() {
    let mut territories = Territories::new();
    territories.insert("sahel".to_string(), territory("sahel"));
    territories.insert("horn".to_string(), territory("horn"));
    territories
        .get_mut(&"horn".to_string())
        .coordinates
        .push((3, 4));
    territories
        .get_mut(&"horn".to_string())
        .inform_troop_arrived(&"t1".to_string(), 1);
    let horn = territories.get(&"horn".to_string()).unwrap();
    assert_eq!(horn.coordinates, vec![(3, 4)]);
    assert_eq!(horn.troops.get_all_troops_deployed_and_arrived().len(), 1);
    let sahel = territories.get(&"sahel".to_string()).unwrap();
    assert!(sahel.coordinates.is_empty());
    assert_eq!(sahel.troops.get_all_troops_deployed_and_arrived().len(), 0);
}

#[test]
fn conflicts_end_where_one_player_is_left() {
    let mut territories = Territories::new();
    let mut quiet = territory("quiet");
    quiet.territory_states.insert(TerritoryState::OccupiedUnderConflict);
    quiet
        .territory_states
        .insert(TerritoryState::UnoccupiedUnderConflict);
    quiet.inform_troop_arrived(&"t1".to_string(), 1);
    let mut disputed = territory("disputed");
    disputed
        .territory_states
        .insert(TerritoryState::OccupiedUnderConflict);
    disputed.inform_troop_arrived(&"t2".to_string(), 1);
    disputed.inform_troop_arrived(&"e1".to_string(), 2);
    territories.insert("quiet".to_string(), quiet);
    territories.insert("disputed".to_string(), disputed);
    territories.settle_conflicts();
    let quiet = territories.get(&"quiet".to_string()).unwrap();
    assert!(!quiet
        .territory_states
        .contains(&TerritoryState::OccupiedUnderConflict));
    assert!(!quiet
        .territory_states
        .contains(&TerritoryState::UnoccupiedUnderConflict));
    assert!(quiet.territory_states.contains(&TerritoryState::Unoccupied));
    let disputed = territories.get(&"disputed".to_string()).unwrap();
    assert!(disputed
        .territory_states
        .contains(&TerritoryState::OccupiedUnderConflict));
}

#[test]
fn sizes_are_set_for_every_territory() {
    let mut territories = Territories::new();
    let mut small = territory("small");
    small.coordinates = vec![(0, 0); 60];
    let mut tiny = territory("tiny");
    tiny.coordinates = vec![(0, 0); 2];
    territories.insert("small".to_string(), small);
    territories.insert("tiny".to_string(), tiny);
    territories.set_territory_sizes();
    assert_eq!(territories.get(&"small".to_string()).unwrap().size, Size::Small);
    assert_eq!(territories.get(&"tiny".to_string()).unwrap().size, Size::Tiny);
}

#[test]
fn the_map_of_the_game_holds_its_territories_by_name() {
    let africa = Territory::list_africa();
    assert_eq!(africa.len(), 13);
    assert_eq!(africa[0].territory_id, "horn");
    assert_eq!(africa[12].territory_id, "africa_west_region");
    assert_eq!(africa[5].location.continent, Continent::Africa);
    let asia = Territory::list_asia();
    assert_eq!(asia.len(), 49);
    assert!(asia
        .iter()
        .all(|territory| territory.location.continent == Continent::Asia));
    let zagros = asia
        .iter()
        .find(|territory| territory.territory_id == "zagros_mountains")
        .unwrap();
    assert_eq!(zagros.location.sub_continent, Some(SubContinent::MiddleEast));
    assert_eq!(Territory::list_antarctica().len(), 7);
    assert_eq!(Territory::list_europe().len(), 11);
    assert_eq!(Territory::list_north_america().len(), 21);
    assert_eq!(Territory::list_oceania().len(), 8);
    assert_eq!(Territory::list_south_america().len(), 9);
    let special = Territory::list_special();
    assert_eq!(special.len(), 2);
    assert_eq!(special[1].territory_id, "asia_europe_connection");
    assert_eq!(special[1].location.continent, Continent::Special);
    let list = Territory::list();
    assert_eq!(list.len(), 120);
    assert_eq!(list[0].territory_id, "horn");
    assert_eq!(list[119].territory_id, "asia_europe_connection");
    let map = Territory::get_map();
    assert_eq!(map.len(), 120);
    for territory in &list {
        let found = map.get(&territory.territory_id).unwrap();
        assert_eq!(found.territory_id, territory.territory_id);
        assert_eq!(found.location, territory.location);
        assert!(found.coordinates.is_empty());
        assert!(found.territory_states.contains(&TerritoryState::Unoccupied));
    }
    assert!(map.get(&"atlantis".to_string()).is_none());
}
