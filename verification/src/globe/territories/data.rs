//! The territories of the planet of the game.

use vstd::prelude::*;
use crate::globe::coordinates_system::surface_point::Coordinates;
use crate::player::player::PlayerId;
use super::territory::{Continent, Location, Size, SubContinent, Territories, Territory, TerritoryState};

verus! {

/// A territory on the map: its name, its continent and its part of the
/// continent, if any.
pub type MapEntry = (Seq<char>, Continent, Option<SubContinent>);

/// Whether `territory` is the territory of `entry` as it is before the game
/// starts: without cells, unoccupied, without ruler and without troops.
pub open spec fn is_base_territory(territory: Territory, entry: MapEntry) -> bool {
    &&& territory.wf()
    &&& territory.territory_id@ == entry.0
    &&& territory.location == (Location { continent: entry.1, sub_continent: entry.2 })
    &&& territory.coordinates@ == Seq::<Coordinates>::empty()
    &&& territory.size == Size::NoSize
    &&& territory.organic_max_troops == 0
    &&& territory.territory_states@ == set![TerritoryState::Unoccupied]
    &&& territory.deployed() == Seq::<(PlayerId, Seq<char>)>::empty()
    &&& territory.arrived() == Seq::<(PlayerId, Seq<char>)>::empty()
    &&& territory.player_trying_to_conquer is None
    &&& territory.current_ruler is None
}

/// Whether `territories` are the territories of `entries`, one for one, as
/// they are before the game starts.
pub open spec fn is_list_of(territories: Seq<Territory>, entries: Seq<MapEntry>) -> bool {
    &&& territories.len() == entries.len()
    &&& forall|i: int|
        0 <= i < territories.len() ==> is_base_territory(#[trigger] territories[i], entries[i])
}

/// Whether `territories` holds the territories of `entries` by their names, as
/// they are before the game starts, and no others.
pub open spec fn is_map_of(territories: Map<Seq<char>, Territory>, entries: Seq<MapEntry>) -> bool {
    &&& forall|i: int| 0 <= i < entries.len() ==> territories.contains_key((#[trigger] entries[i]).0)
    &&& forall|id: Seq<char>| #[trigger]
        territories.contains_key(id) ==> exists|i: int|
            0 <= i < entries.len() && (#[trigger] entries[i]).0 == id && is_base_territory(
                territories[id],
                entries[i],
            )
}

/// The territories of Africa, part 1 of 2.
pub open spec fn africa_territories_part_1() -> Seq<MapEntry> {
    seq![
        ("horn"@, Continent::Africa, None),
        ("sahel"@, Continent::Africa, None),
        ("africa_rainforest"@, Continent::Africa, None),
        ("namid_desert"@, Continent::Africa, None),
        ("kalahari"@, Continent::Africa, None),
        ("sahara"@, Continent::Africa, None),
        ("east_savanna"@, Continent::Africa, None),
        ("african_south_central_plateau"@, Continent::Africa, None),
        ("nile_river_region"@, Continent::Africa, None),
        ("the_greatest_african_island"@, Continent::Africa, None),
    ]
}

/// The territories of Africa, part 2 of 2.
pub open spec fn africa_territories_part_2() -> Seq<MapEntry> {
    seq![
        ("niger_river"@, Continent::Africa, None),
        ("volta_lake"@, Continent::Africa, None),
        ("africa_west_region"@, Continent::Africa, None),
    ]
}

/// The territories of Africa.
pub open spec fn africa_territories() -> Seq<MapEntry> {
    africa_territories_part_1() + africa_territories_part_2()
}

/// The territories of Antarctica.
pub open spec fn antarctica_territories() -> Seq<MapEntry> {
    seq![
        ("west_antarctica"@, Continent::Antarctica, None),
        ("somov_sea"@, Continent::Antarctica, None),
        ("east_antarctica"@, Continent::Antarctica, None),
        ("riiser_larsen_ice_shelf"@, Continent::Antarctica, None),
        ("everybodys_south"@, Continent::Antarctica, None),
        ("antartica_peninsula"@, Continent::Antarctica, None),
        ("unclaimed_area"@, Continent::Antarctica, None),
    ]
}

/// The territories of Asia, part 1 of 5.
pub open spec fn asia_territories_part_1() -> Seq<MapEntry> {
    seq![
        ("arabian_peninsula"@, Continent::Asia, Some(SubContinent::MiddleEast)),
        ("suez_canal"@, Continent::Asia, Some(SubContinent::MiddleEast)),
        ("east_dead_sea"@, Continent::Asia, Some(SubContinent::MiddleEast)),
        ("lut_desert"@, Continent::Asia, Some(SubContinent::MiddleEast)),
        ("monotheist_realms"@, Continent::Asia, Some(SubContinent::MiddleEast)),
        ("zagros_mountains"@, Continent::Asia, Some(SubContinent::MiddleEast)),
        ("caspian_coast"@, Continent::Asia, Some(SubContinent::EuropeRelatedAsia)),
        ("caucasus"@, Continent::Asia, Some(SubContinent::EuropeRelatedAsia)),
        ("east_siberia"@, Continent::Asia, Some(SubContinent::EuropeRelatedAsia)),
        ("west_siberia"@, Continent::Asia, Some(SubContinent::EuropeRelatedAsia)),
    ]
}

/// The territories of Asia, part 2 of 5.
pub open spec fn asia_territories_part_2() -> Seq<MapEntry> {
    seq![
        ("lake_balkhash"@, Continent::Asia, Some(SubContinent::EuropeRelatedAsia)),
        ("amu_darya_river"@, Continent::Asia, Some(SubContinent::EuropeRelatedAsia)),
        ("aral_sea"@, Continent::Asia, Some(SubContinent::EuropeRelatedAsia)),
        ("zeya_dam"@, Continent::Asia, Some(SubContinent::EuropeRelatedAsia)),
        ("han_land"@, Continent::Asia, Some(SubContinent::EastAsia)),
        ("shibuya"@, Continent::Asia, Some(SubContinent::EastAsia)),
        ("daisetsuzan"@, Continent::Asia, Some(SubContinent::EastAsia)),
        ("korean_peninsula"@, Continent::Asia, Some(SubContinent::EastAsia)),
        ("cantonese_lands"@, Continent::Asia, Some(SubContinent::EastAsia)),
        ("great_wall"@, Continent::Asia, Some(SubContinent::EastAsia)),
    ]
}

/// The territories of Asia, part 3 of 5.
pub open spec fn asia_territories_part_3() -> Seq<MapEntry> {
    seq![
        ("manchuria"@, Continent::Asia, Some(SubContinent::EastAsia)),
        ("mount_fuji"@, Continent::Asia, Some(SubContinent::EastAsia)),
        ("gobi_desert"@, Continent::Asia, Some(SubContinent::EastAsia)),
        ("loess_plateau"@, Continent::Asia, Some(SubContinent::InteriorAsia)),
        ("borneo_island"@, Continent::Asia, Some(SubContinent::SoutheastAsia)),
        ("gede_pangrango"@, Continent::Asia, Some(SubContinent::SoutheastAsia)),
        ("banda_arc"@, Continent::Asia, Some(SubContinent::SoutheastAsia)),
        ("das_visayas_sea"@, Continent::Asia, Some(SubContinent::SoutheastAsia)),
        ("tri_an_lake"@, Continent::Asia, Some(SubContinent::SoutheastAsia)),
        ("asia_southeast_peninsula"@, Continent::Asia, Some(SubContinent::SoutheastAsia)),
    ]
}

/// The territories of Asia, part 4 of 5.
pub open spec fn asia_territories_part_4() -> Seq<MapEntry> {
    seq![
        ("chao_phraya_river"@, Continent::Asia, Some(SubContinent::SoutheastAsia)),
        ("tonle_sap"@, Continent::Asia, Some(SubContinent::SoutheastAsia)),
        ("phou_bia"@, Continent::Asia, Some(SubContinent::SoutheastAsia)),
        ("red_river"@, Continent::Asia, Some(SubContinent::SoutheastAsia)),
        ("irrawaddy_river"@, Continent::Asia, Some(SubContinent::SoutheastAsia)),
        ("east_new_guinea"@, Continent::Asia, Some(SubContinent::SoutheastAsia)),
        ("balimela_dam"@, Continent::Asia, Some(SubContinent::IndianSubcontinent)),
        ("central_sub_continent_highlands"@, Continent::Asia, Some(SubContinent::IndianSubcontinent)),
        ("ganges_delta_region"@, Continent::Asia, Some(SubContinent::IndianSubcontinent)),
        ("indo_river"@, Continent::Asia, Some(SubContinent::IndianSubcontinent)),
    ]
}

/// The territories of Asia, part 5 of 5.
pub open spec fn asia_territories_part_5() -> Seq<MapEntry> {
    seq![
        ("kaveri_river"@, Continent::Asia, Some(SubContinent::IndianSubcontinent)),
        ("mount_pidurutalagala"@, Continent::Asia, Some(SubContinent::IndianSubcontinent)),
        ("thar_desert"@, Continent::Asia, Some(SubContinent::IndianSubcontinent)),
        ("western_ghats"@, Continent::Asia, Some(SubContinent::IndianSubcontinent)),
        ("himalayas"@, Continent::Asia, Some(SubContinent::InteriorAsia)),
        ("k2_mountain"@, Continent::Asia, Some(SubContinent::InteriorAsia)),
        ("registan_desert"@, Continent::Asia, Some(SubContinent::InteriorAsia)),
        ("tian_shan_mountains"@, Continent::Asia, Some(SubContinent::InteriorAsia)),
        ("lake_baikal"@, Continent::Asia, Some(SubContinent::InteriorAsia)),
    ]
}

/// The territories of Asia.
pub open spec fn asia_territories() -> Seq<MapEntry> {
    asia_territories_part_1() + asia_territories_part_2() + asia_territories_part_3() + asia_territories_part_4() + asia_territories_part_5()
}

/// The territories of Europe, part 1 of 2.
pub open spec fn europe_territories_part_1() -> Seq<MapEntry> {
    seq![
        ("nordics"@, Continent::Europe, None),
        ("the_islands"@, Continent::Europe, None),
        ("rhine_region"@, Continent::Europe, None),
        ("balkan_peninsula"@, Continent::Europe, None),
        ("euro_romance_lands"@, Continent::Europe, None),
        ("west_slavs"@, Continent::Europe, None),
        ("baltics"@, Continent::Europe, None),
        ("big_plain"@, Continent::Europe, None),
        ("north_black_sea"@, Continent::Europe, None),
        ("urau_mountains"@, Continent::Europe, None),
    ]
}

/// The territories of Europe, part 2 of 2.
pub open spec fn europe_territories_part_2() -> Seq<MapEntry> {
    seq![
        ("white_sea"@, Continent::Europe, None),
    ]
}

/// The territories of Europe.
pub open spec fn europe_territories() -> Seq<MapEntry> {
    europe_territories_part_1() + europe_territories_part_2()
}

/// The territories of North America, part 1 of 3.
pub open spec fn north_america_territories_part_1() -> Seq<MapEntry> {
    seq![
        ("californias"@, Continent::NorthAmerica, None),
        ("caribbean_islands"@, Continent::NorthAmerica, None),
        ("north_america_desert"@, Continent::NorthAmerica, None),
        ("great_lakes"@, Continent::NorthAmerica, None),
        ("artic_territories"@, Continent::NorthAmerica, None),
        ("baffin_bay"@, Continent::NorthAmerica, None),
        ("labrador_sea_neighbors"@, Continent::NorthAmerica, None),
        ("new_great_britain"@, Continent::NorthAmerica, None),
        ("mississippi_way"@, Continent::NorthAmerica, None),
        ("romance_speaking_territory"@, Continent::NorthAmerica, None),
    ]
}

/// The territories of North America, part 2 of 3.
pub open spec fn north_america_territories_part_2() -> Seq<MapEntry> {
    seq![
        ("southern_north"@, Continent::NorthAmerica, None),
        ("parallel_49th"@, Continent::NorthAmerica, None),
        ("great_bear_lake"@, Continent::NorthAmerica, None),
        ("slave_lake"@, Continent::NorthAmerica, None),
        ("mount_columbia"@, Continent::NorthAmerica, None),
        ("thousand_lakes_region"@, Continent::NorthAmerica, None),
        ("hudson_bay_viewers"@, Continent::NorthAmerica, None),
        ("north_pacific_civilization"@, Continent::NorthAmerica, None),
        ("aztecas"@, Continent::NorthAmerica, None),
        ("mayas"@, Continent::NorthAmerica, None),
    ]
}

/// The territories of North America, part 3 of 3.
pub open spec fn north_america_territories_part_3() -> Seq<MapEntry> {
    seq![
        ("cocibolca_lake"@, Continent::NorthAmerica, None),
    ]
}

/// The territories of North America.
pub open spec fn north_america_territories() -> Seq<MapEntry> {
    north_america_territories_part_1() + north_america_territories_part_2() + north_america_territories_part_3()
}

/// The territories of Oceania.
pub open spec fn oceania_territories() -> Seq<MapEntry> {
    seq![
        ("maoris"@, Continent::Oceania, None),
        ("aussie_desert"@, Continent::Oceania, None),
        ("coral_sea_coast"@, Continent::Oceania, None),
        ("daintree_rainforest"@, Continent::Oceania, None),
        ("kangaroos"@, Continent::Oceania, None),
        ("most_isolated_city"@, Continent::Oceania, None),
        ("temperate_land"@, Continent::Oceania, None),
        ("south_pacific_islands"@, Continent::Oceania, None),
    ]
}

/// The territories of South America.
pub open spec fn south_america_territories() -> Seq<MapEntry> {
    seq![
        ("amazon"@, Continent::SouthAmerica, None),
        ("andes"@, Continent::SouthAmerica, None),
        ("atlantic_forest"@, Continent::SouthAmerica, None),
        ("caatinga"@, Continent::SouthAmerica, None),
        ("incas"@, Continent::SouthAmerica, None),
        ("latinos"@, Continent::SouthAmerica, None),
        ("pampas"@, Continent::SouthAmerica, None),
        ("patagonia"@, Continent::SouthAmerica, None),
        ("tropical_highlands"@, Continent::SouthAmerica, None),
    ]
}

/// The territories that belong to no continent.
pub open spec fn special_territories() -> Seq<MapEntry> {
    seq![
        ("diomede_islands"@, Continent::Special, None),
        ("asia_europe_connection"@, Continent::Special, None),
    ]
}

/// Every territory of the planet, continent by continent.
pub open spec fn all_territories() -> Seq<MapEntry> {
    africa_territories()
        + antarctica_territories()
        + asia_territories()
        + europe_territories()
        + north_america_territories()
        + oceania_territories()
        + south_america_territories()
        + special_territories()
}

impl Territory {
    fn list_africa_part_1() -> (territories: Vec<Territory>)
        ensures
            is_list_of(territories@, africa_territories_part_1()),
    {
        let mut territories: Vec<Territory> = Vec::new();
        territories.push(Self::get_base_territory("horn", Continent::Africa, None));
        territories.push(Self::get_base_territory("sahel", Continent::Africa, None));
        territories.push(Self::get_base_territory("africa_rainforest", Continent::Africa, None));
        territories.push(Self::get_base_territory("namid_desert", Continent::Africa, None));
        territories.push(Self::get_base_territory("kalahari", Continent::Africa, None));
        territories.push(Self::get_base_territory("sahara", Continent::Africa, None));
        territories.push(Self::get_base_territory("east_savanna", Continent::Africa, None));
        territories.push(Self::get_base_territory("african_south_central_plateau", Continent::Africa, None));
        territories.push(Self::get_base_territory("nile_river_region", Continent::Africa, None));
        territories.push(Self::get_base_territory("the_greatest_african_island", Continent::Africa, None));
        territories
    }

    fn list_africa_part_2() -> (territories: Vec<Territory>)
        ensures
            is_list_of(territories@, africa_territories_part_2()),
    {
        let mut territories: Vec<Territory> = Vec::new();
        territories.push(Self::get_base_territory("niger_river", Continent::Africa, None));
        territories.push(Self::get_base_territory("volta_lake", Continent::Africa, None));
        territories.push(Self::get_base_territory("africa_west_region", Continent::Africa, None));
        territories
    }

    /// The territories of Africa.
    pub fn list_africa() -> (territories: Vec<Territory>)
        ensures
            is_list_of(territories@, africa_territories()),
    {
        let mut territories: Vec<Territory> = Vec::new();
        let mut part = Self::list_africa_part_1();
        territories.append(&mut part);
        let mut part = Self::list_africa_part_2();
        territories.append(&mut part);
        territories
    }

    /// The territories of Antarctica.
    pub fn list_antarctica() -> (territories: Vec<Territory>)
        ensures
            is_list_of(territories@, antarctica_territories()),
    {
        let mut territories: Vec<Territory> = Vec::new();
        territories.push(Self::get_base_territory("west_antarctica", Continent::Antarctica, None));
        territories.push(Self::get_base_territory("somov_sea", Continent::Antarctica, None));
        territories.push(Self::get_base_territory("east_antarctica", Continent::Antarctica, None));
        territories.push(Self::get_base_territory("riiser_larsen_ice_shelf", Continent::Antarctica, None));
        territories.push(Self::get_base_territory("everybodys_south", Continent::Antarctica, None));
        territories.push(Self::get_base_territory("antartica_peninsula", Continent::Antarctica, None));
        territories.push(Self::get_base_territory("unclaimed_area", Continent::Antarctica, None));
        territories
    }

    fn list_asia_part_1() -> (territories: Vec<Territory>)
        ensures
            is_list_of(territories@, asia_territories_part_1()),
    {
        let mut territories: Vec<Territory> = Vec::new();
        territories.push(Self::get_base_territory("arabian_peninsula", Continent::Asia, Some(SubContinent::MiddleEast)));
        territories.push(Self::get_base_territory("suez_canal", Continent::Asia, Some(SubContinent::MiddleEast)));
        territories.push(Self::get_base_territory("east_dead_sea", Continent::Asia, Some(SubContinent::MiddleEast)));
        territories.push(Self::get_base_territory("lut_desert", Continent::Asia, Some(SubContinent::MiddleEast)));
        territories.push(Self::get_base_territory("monotheist_realms", Continent::Asia, Some(SubContinent::MiddleEast)));
        territories.push(Self::get_base_territory("zagros_mountains", Continent::Asia, Some(SubContinent::MiddleEast)));
        territories.push(Self::get_base_territory("caspian_coast", Continent::Asia, Some(SubContinent::EuropeRelatedAsia)));
        territories.push(Self::get_base_territory("caucasus", Continent::Asia, Some(SubContinent::EuropeRelatedAsia)));
        territories.push(Self::get_base_territory("east_siberia", Continent::Asia, Some(SubContinent::EuropeRelatedAsia)));
        territories.push(Self::get_base_territory("west_siberia", Continent::Asia, Some(SubContinent::EuropeRelatedAsia)));
        territories
    }

    fn list_asia_part_2() -> (territories: Vec<Territory>)
        ensures
            is_list_of(territories@, asia_territories_part_2()),
    {
        let mut territories: Vec<Territory> = Vec::new();
        territories.push(Self::get_base_territory("lake_balkhash", Continent::Asia, Some(SubContinent::EuropeRelatedAsia)));
        territories.push(Self::get_base_territory("amu_darya_river", Continent::Asia, Some(SubContinent::EuropeRelatedAsia)));
        territories.push(Self::get_base_territory("aral_sea", Continent::Asia, Some(SubContinent::EuropeRelatedAsia)));
        territories.push(Self::get_base_territory("zeya_dam", Continent::Asia, Some(SubContinent::EuropeRelatedAsia)));
        territories.push(Self::get_base_territory("han_land", Continent::Asia, Some(SubContinent::EastAsia)));
        territories.push(Self::get_base_territory("shibuya", Continent::Asia, Some(SubContinent::EastAsia)));
        territories.push(Self::get_base_territory("daisetsuzan", Continent::Asia, Some(SubContinent::EastAsia)));
        territories.push(Self::get_base_territory("korean_peninsula", Continent::Asia, Some(SubContinent::EastAsia)));
        territories.push(Self::get_base_territory("cantonese_lands", Continent::Asia, Some(SubContinent::EastAsia)));
        territories.push(Self::get_base_territory("great_wall", Continent::Asia, Some(SubContinent::EastAsia)));
        territories
    }

    fn list_asia_part_3() -> (territories: Vec<Territory>)
        ensures
            is_list_of(territories@, asia_territories_part_3()),
    {
        let mut territories: Vec<Territory> = Vec::new();
        territories.push(Self::get_base_territory("manchuria", Continent::Asia, Some(SubContinent::EastAsia)));
        territories.push(Self::get_base_territory("mount_fuji", Continent::Asia, Some(SubContinent::EastAsia)));
        territories.push(Self::get_base_territory("gobi_desert", Continent::Asia, Some(SubContinent::EastAsia)));
        territories.push(Self::get_base_territory("loess_plateau", Continent::Asia, Some(SubContinent::InteriorAsia)));
        territories.push(Self::get_base_territory("borneo_island", Continent::Asia, Some(SubContinent::SoutheastAsia)));
        territories.push(Self::get_base_territory("gede_pangrango", Continent::Asia, Some(SubContinent::SoutheastAsia)));
        territories.push(Self::get_base_territory("banda_arc", Continent::Asia, Some(SubContinent::SoutheastAsia)));
        territories.push(Self::get_base_territory("das_visayas_sea", Continent::Asia, Some(SubContinent::SoutheastAsia)));
        territories.push(Self::get_base_territory("tri_an_lake", Continent::Asia, Some(SubContinent::SoutheastAsia)));
        territories.push(Self::get_base_territory("asia_southeast_peninsula", Continent::Asia, Some(SubContinent::SoutheastAsia)));
        territories
    }

    fn list_asia_part_4() -> (territories: Vec<Territory>)
        ensures
            is_list_of(territories@, asia_territories_part_4()),
    {
        let mut territories: Vec<Territory> = Vec::new();
        territories.push(Self::get_base_territory("chao_phraya_river", Continent::Asia, Some(SubContinent::SoutheastAsia)));
        territories.push(Self::get_base_territory("tonle_sap", Continent::Asia, Some(SubContinent::SoutheastAsia)));
        territories.push(Self::get_base_territory("phou_bia", Continent::Asia, Some(SubContinent::SoutheastAsia)));
        territories.push(Self::get_base_territory("red_river", Continent::Asia, Some(SubContinent::SoutheastAsia)));
        territories.push(Self::get_base_territory("irrawaddy_river", Continent::Asia, Some(SubContinent::SoutheastAsia)));
        territories.push(Self::get_base_territory("east_new_guinea", Continent::Asia, Some(SubContinent::SoutheastAsia)));
        territories.push(Self::get_base_territory("balimela_dam", Continent::Asia, Some(SubContinent::IndianSubcontinent)));
        territories.push(Self::get_base_territory("central_sub_continent_highlands", Continent::Asia, Some(SubContinent::IndianSubcontinent)));
        territories.push(Self::get_base_territory("ganges_delta_region", Continent::Asia, Some(SubContinent::IndianSubcontinent)));
        territories.push(Self::get_base_territory("indo_river", Continent::Asia, Some(SubContinent::IndianSubcontinent)));
        territories
    }

    fn list_asia_part_5() -> (territories: Vec<Territory>)
        ensures
            is_list_of(territories@, asia_territories_part_5()),
    {
        let mut territories: Vec<Territory> = Vec::new();
        territories.push(Self::get_base_territory("kaveri_river", Continent::Asia, Some(SubContinent::IndianSubcontinent)));
        territories.push(Self::get_base_territory("mount_pidurutalagala", Continent::Asia, Some(SubContinent::IndianSubcontinent)));
        territories.push(Self::get_base_territory("thar_desert", Continent::Asia, Some(SubContinent::IndianSubcontinent)));
        territories.push(Self::get_base_territory("western_ghats", Continent::Asia, Some(SubContinent::IndianSubcontinent)));
        territories.push(Self::get_base_territory("himalayas", Continent::Asia, Some(SubContinent::InteriorAsia)));
        territories.push(Self::get_base_territory("k2_mountain", Continent::Asia, Some(SubContinent::InteriorAsia)));
        territories.push(Self::get_base_territory("registan_desert", Continent::Asia, Some(SubContinent::InteriorAsia)));
        territories.push(Self::get_base_territory("tian_shan_mountains", Continent::Asia, Some(SubContinent::InteriorAsia)));
        territories.push(Self::get_base_territory("lake_baikal", Continent::Asia, Some(SubContinent::InteriorAsia)));
        territories
    }

    /// The territories of Asia.
    pub fn list_asia() -> (territories: Vec<Territory>)
        ensures
            is_list_of(territories@, asia_territories()),
    {
        let mut territories: Vec<Territory> = Vec::new();
        let mut part = Self::list_asia_part_1();
        territories.append(&mut part);
        let mut part = Self::list_asia_part_2();
        territories.append(&mut part);
        let mut part = Self::list_asia_part_3();
        territories.append(&mut part);
        let mut part = Self::list_asia_part_4();
        territories.append(&mut part);
        let mut part = Self::list_asia_part_5();
        territories.append(&mut part);
        territories
    }

    fn list_europe_part_1() -> (territories: Vec<Territory>)
        ensures
            is_list_of(territories@, europe_territories_part_1()),
    {
        let mut territories: Vec<Territory> = Vec::new();
        territories.push(Self::get_base_territory("nordics", Continent::Europe, None));
        territories.push(Self::get_base_territory("the_islands", Continent::Europe, None));
        territories.push(Self::get_base_territory("rhine_region", Continent::Europe, None));
        territories.push(Self::get_base_territory("balkan_peninsula", Continent::Europe, None));
        territories.push(Self::get_base_territory("euro_romance_lands", Continent::Europe, None));
        territories.push(Self::get_base_territory("west_slavs", Continent::Europe, None));
        territories.push(Self::get_base_territory("baltics", Continent::Europe, None));
        territories.push(Self::get_base_territory("big_plain", Continent::Europe, None));
        territories.push(Self::get_base_territory("north_black_sea", Continent::Europe, None));
        territories.push(Self::get_base_territory("urau_mountains", Continent::Europe, None));
        territories
    }

    fn list_europe_part_2() -> (territories: Vec<Territory>)
        ensures
            is_list_of(territories@, europe_territories_part_2()),
    {
        let mut territories: Vec<Territory> = Vec::new();
        territories.push(Self::get_base_territory("white_sea", Continent::Europe, None));
        territories
    }

    /// The territories of Europe.
    pub fn list_europe() -> (territories: Vec<Territory>)
        ensures
            is_list_of(territories@, europe_territories()),
    {
        let mut territories: Vec<Territory> = Vec::new();
        let mut part = Self::list_europe_part_1();
        territories.append(&mut part);
        let mut part = Self::list_europe_part_2();
        territories.append(&mut part);
        territories
    }

    fn list_north_america_part_1() -> (territories: Vec<Territory>)
        ensures
            is_list_of(territories@, north_america_territories_part_1()),
    {
        let mut territories: Vec<Territory> = Vec::new();
        territories.push(Self::get_base_territory("californias", Continent::NorthAmerica, None));
        territories.push(Self::get_base_territory("caribbean_islands", Continent::NorthAmerica, None));
        territories.push(Self::get_base_territory("north_america_desert", Continent::NorthAmerica, None));
        territories.push(Self::get_base_territory("great_lakes", Continent::NorthAmerica, None));
        territories.push(Self::get_base_territory("artic_territories", Continent::NorthAmerica, None));
        territories.push(Self::get_base_territory("baffin_bay", Continent::NorthAmerica, None));
        territories.push(Self::get_base_territory("labrador_sea_neighbors", Continent::NorthAmerica, None));
        territories.push(Self::get_base_territory("new_great_britain", Continent::NorthAmerica, None));
        territories.push(Self::get_base_territory("mississippi_way", Continent::NorthAmerica, None));
        territories.push(Self::get_base_territory("romance_speaking_territory", Continent::NorthAmerica, None));
        territories
    }

    fn list_north_america_part_2() -> (territories: Vec<Territory>)
        ensures
            is_list_of(territories@, north_america_territories_part_2()),
    {
        let mut territories: Vec<Territory> = Vec::new();
        territories.push(Self::get_base_territory("southern_north", Continent::NorthAmerica, None));
        territories.push(Self::get_base_territory("parallel_49th", Continent::NorthAmerica, None));
        territories.push(Self::get_base_territory("great_bear_lake", Continent::NorthAmerica, None));
        territories.push(Self::get_base_territory("slave_lake", Continent::NorthAmerica, None));
        territories.push(Self::get_base_territory("mount_columbia", Continent::NorthAmerica, None));
        territories.push(Self::get_base_territory("thousand_lakes_region", Continent::NorthAmerica, None));
        territories.push(Self::get_base_territory("hudson_bay_viewers", Continent::NorthAmerica, None));
        territories.push(Self::get_base_territory("north_pacific_civilization", Continent::NorthAmerica, None));
        territories.push(Self::get_base_territory("aztecas", Continent::NorthAmerica, None));
        territories.push(Self::get_base_territory("mayas", Continent::NorthAmerica, None));
        territories
    }

    fn list_north_america_part_3() -> (territories: Vec<Territory>)
        ensures
            is_list_of(territories@, north_america_territories_part_3()),
    {
        let mut territories: Vec<Territory> = Vec::new();
        territories.push(Self::get_base_territory("cocibolca_lake", Continent::NorthAmerica, None));
        territories
    }

    /// The territories of North America.
    pub fn list_north_america() -> (territories: Vec<Territory>)
        ensures
            is_list_of(territories@, north_america_territories()),
    {
        let mut territories: Vec<Territory> = Vec::new();
        let mut part = Self::list_north_america_part_1();
        territories.append(&mut part);
        let mut part = Self::list_north_america_part_2();
        territories.append(&mut part);
        let mut part = Self::list_north_america_part_3();
        territories.append(&mut part);
        territories
    }

    /// The territories of Oceania.
    pub fn list_oceania() -> (territories: Vec<Territory>)
        ensures
            is_list_of(territories@, oceania_territories()),
    {
        let mut territories: Vec<Territory> = Vec::new();
        territories.push(Self::get_base_territory("maoris", Continent::Oceania, None));
        territories.push(Self::get_base_territory("aussie_desert", Continent::Oceania, None));
        territories.push(Self::get_base_territory("coral_sea_coast", Continent::Oceania, None));
        territories.push(Self::get_base_territory("daintree_rainforest", Continent::Oceania, None));
        territories.push(Self::get_base_territory("kangaroos", Continent::Oceania, None));
        territories.push(Self::get_base_territory("most_isolated_city", Continent::Oceania, None));
        territories.push(Self::get_base_territory("temperate_land", Continent::Oceania, None));
        territories.push(Self::get_base_territory("south_pacific_islands", Continent::Oceania, None));
        territories
    }

    /// The territories of South America.
    pub fn list_south_america() -> (territories: Vec<Territory>)
        ensures
            is_list_of(territories@, south_america_territories()),
    {
        let mut territories: Vec<Territory> = Vec::new();
        territories.push(Self::get_base_territory("amazon", Continent::SouthAmerica, None));
        territories.push(Self::get_base_territory("andes", Continent::SouthAmerica, None));
        territories.push(Self::get_base_territory("atlantic_forest", Continent::SouthAmerica, None));
        territories.push(Self::get_base_territory("caatinga", Continent::SouthAmerica, None));
        territories.push(Self::get_base_territory("incas", Continent::SouthAmerica, None));
        territories.push(Self::get_base_territory("latinos", Continent::SouthAmerica, None));
        territories.push(Self::get_base_territory("pampas", Continent::SouthAmerica, None));
        territories.push(Self::get_base_territory("patagonia", Continent::SouthAmerica, None));
        territories.push(Self::get_base_territory("tropical_highlands", Continent::SouthAmerica, None));
        territories
    }

    /// The territories that belong to no continent.
    pub fn list_special() -> (territories: Vec<Territory>)
        ensures
            is_list_of(territories@, special_territories()),
    {
        let mut territories: Vec<Territory> = Vec::new();
        territories.push(Self::get_base_territory("diomede_islands", Continent::Special, None));
        territories.push(Self::get_base_territory("asia_europe_connection", Continent::Special, None));
        territories
    }

    /// Every territory of the planet, continent by continent.
    pub fn list() -> (territories: Vec<Territory>)
        ensures
            is_list_of(territories@, all_territories()),
    {
        let mut territories: Vec<Territory> = Vec::new();
        let mut continent = Self::list_africa();
        territories.append(&mut continent);
        let mut continent = Self::list_antarctica();
        territories.append(&mut continent);
        let mut continent = Self::list_asia();
        territories.append(&mut continent);
        let mut continent = Self::list_europe();
        territories.append(&mut continent);
        let mut continent = Self::list_north_america();
        territories.append(&mut continent);
        let mut continent = Self::list_oceania();
        territories.append(&mut continent);
        let mut continent = Self::list_south_america();
        territories.append(&mut continent);
        let mut continent = Self::list_special();
        territories.append(&mut continent);
        territories
    }

    /// Every territory of the planet, by its name.
    pub fn get_map() -> (territories: Territories)
        ensures
            territories.wf(),
            is_map_of(territories@, all_territories()),
    {
        let mut list = Self::list();
        let mut territories = Territories::new();
        let ghost entries = all_territories();
        let ghost mut done: int = 0;
        while list.len() > 0
            invariant
                territories.wf(),
                0 <= done <= entries.len(),
                list@.len() == entries.len() - done,
                forall|i: int|
                    0 <= i < list@.len() ==> is_base_territory(#[trigger] list@[i], entries[done + i]),
                is_map_of(territories@, entries.take(done)),
            decreases list@.len(),
        {
            let ghost before = territories@;
            let ghost listed = list@;
            let ghost entry = entries[done];
            assert(is_base_territory(list@[0], entries[done + 0]));
            let territory = list.remove(0);
            let territory_id = territory.territory_id.clone();
            territories.insert(territory_id, territory);
            proof {
                let taken = entries.take(done);
                let wider = entries.take(done + 1);
                assert forall|i: int| 0 <= i < wider.len() implies territories@.contains_key(
                    (#[trigger] wider[i]).0,
                ) by {
                    if i < done {
                        assert(before.contains_key(taken[i].0));
                    }
                }
                assert forall|id: Seq<char>| #[trigger] territories@.contains_key(id) implies exists|
                    i: int,
                |
                    0 <= i < wider.len() && (#[trigger] wider[i]).0 == id && is_base_territory(
                        territories@[id],
                        wider[i],
                    ) by {
                    if id == entry.0 {
                        assert(wider[done] == entry);
                    } else {
                        assert(before.contains_key(id));
                        let i = choose|i: int|
                            0 <= i < taken.len() && (#[trigger] taken[i]).0 == id && is_base_territory(
                                before[id],
                                taken[i],
                            );
                        assert(wider[i] == taken[i]);
                    }
                }
                assert forall|id: Seq<char>| territories@.contains_key(id) implies (
                #[trigger] territories@[id]).wf() by {
                    if id != entry.0 {
                        assert(before.contains_key(id));
                    }
                }
                assert forall|i: int| 0 <= i < list@.len() implies is_base_territory(
                    #[trigger] list@[i],
                    entries[done + 1 + i],
                ) by {
                    assert(list@[i] == listed[i + 1]);
                }
                done = done + 1;
            }
        }
        assert(entries.take(done) =~= entries);
        territories
    }
}

} // verus!
