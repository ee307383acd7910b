use expansionists::globe::coordinates_system::surface_point::{SurfacePoint, SurfacePointMetadata};
use expansionists::i18n::base::AvailableLanguage;
use expansionists::measures::WAYPOINT_TOLERANCE;
use expansionists::player::color::PlayerColor;
use expansionists::player::player::{Player, PlayerType, TroopMeshes};
use expansionists::troops::combat::combat_stats::{
    CombatStats, CombatTypes, CANNON_RANGE, COOL_DOWN_TIMER,
};
use expansionists::troops::mesh_map::MeshId;
use expansionists::troops::speed::SpeedType;
use expansionists::troops::surface::Surface;

#[test]
fn combat_types_are_iterated_once_each_in_order() {
    let all: Vec<CombatTypes> = CombatTypes::iter().into_iter().collect();
    assert_eq!(
        all,
        vec![
            CombatTypes::Attacking,
            CombatTypes::Defending,
            CombatTypes::FightingOverUnoccupiedTerritory
        ]
    );
}

#[test]
fn speeds_in_millionths_of_a_unit_per_second() {
    assert_eq!(SpeedType::Patrolling.get_speed(), 50_000);
    assert_eq!(SpeedType::FightOrFlight.get_speed(), 150_000);
}

#[test]
fn waypoint_tolerance_is_a_tenth_of_a_unit() {
    assert_eq!(WAYPOINT_TOLERANCE, 100_000);
}

#[test]
fn surfaces_have_names() {
    assert_eq!(Surface::Land.to_string(), "land");
    assert_eq!(Surface::Sea.to_string(), "sea");
}

#[test]
fn fresh_combat_stats() {
    let stats = CombatStats::new();
    assert!(!stats.in_after_combat);
    assert_eq!(stats.hp, 100);
    assert!(stats.alive);
    assert_eq!(stats.cannon.range, CANNON_RANGE);
    assert_eq!(stats.cannon.range, 400_000);
    assert_eq!(stats.cannon.cooling_down_counter, COOL_DOWN_TIMER);
    assert_eq!(COOL_DOWN_TIMER, 2_000_000);
    assert_eq!(stats.opening_fire_on_troop, None);
    assert!(!stats.moving_while_fighting);
}

#[test]
fn cannon_cool_down_is_reset_to_ready() {
    let mut stats = CombatStats::new();
    stats.cannon.cooling_down_counter = 17;
    stats.hp = 40;
    stats.reset_cannon_cool_down();
    assert_eq!(stats.cannon.cooling_down_counter, COOL_DOWN_TIMER);
    assert_eq!(stats.hp, 40);
    assert_eq!(stats.cannon.range, CANNON_RANGE);
}

#[test]
fn blank_player_static_info() {
    let info = Player::get_blank_static_info();
    assert_eq!(info.player_id, 0);
    assert_eq!(info.user_name, "to_be_set");
    assert_eq!(info.color, PlayerColor::Black);
    assert_eq!(info.initial_territory, "to_be_set");
    assert_eq!(info.player_type, PlayerType::Bot);
    assert_eq!(
        info.troop_meshes,
        TroopMeshes {
            land: MeshId::Tank1,
            sea: MeshId::Boat1
        }
    );
    let copy = info.clone();
    assert_eq!(copy.player_id, info.player_id);
    assert_eq!(copy.user_name, info.user_name);
    assert_eq!(copy.initial_territory, info.initial_territory);
}

#[test]
fn player_is_set_up_and_counts() {
    let mut player = Player::new();
    assert_eq!(player.troops_counter, 0);
    assert_eq!(player.territory_counter, 0);
    assert_eq!(player.max_troop_allowed, 0);
    assert_eq!(player.language, AvailableLanguage::InternationalEnglish);
    assert!(player.alive);
    player.set_player(
        3,
        "Eagle".to_string(),
        PlayerColor::Yellow,
        "east_savanna".to_string(),
        PlayerType::Bot,
        TroopMeshes {
            land: MeshId::Truck1,
            sea: MeshId::Boat6,
        },
        AvailableLanguage::BrazilianPortuguese,
    );
    assert_eq!(player.language, AvailableLanguage::BrazilianPortuguese);
    assert_eq!(player.static_info.player_id, 3);
    assert_eq!(player.static_info.user_name, "Eagle");
    assert_eq!(player.static_info.color, PlayerColor::Yellow);
    assert_eq!(player.static_info.initial_territory, "east_savanna");
    player.register_troop_spawning();
    player.register_troop_spawning();
    assert_eq!(player.troops_counter, 2);
    player.register_territory_occupation("east_savanna".to_string());
    assert_eq!(player.territory_counter, 1);
    player.register_territory_loss();
    assert_eq!(player.territory_counter, 0);
    player.register_territory_loss();
    assert_eq!(player.territory_counter, 0);
    player.territory_counter = 5;
    player.register_territory_loss();
    assert_eq!(player.territory_counter, 4);
}

#[test]
fn blank_surface_point() {
    assert_eq!(SurfacePoint::<u8>::get_blank_coordinates(), (0, 0));
    let metadata = SurfacePoint::get_blank_surface_point_metadata(7u8);
    assert_eq!(metadata.cartesian, 7);
    assert_eq!(metadata.lat_long, (0, 0));
    assert_eq!(metadata.territory_id, None);
    let mut point = SurfacePoint::new(9u8);
    assert_eq!(point.get_surface_point_metadata().cartesian, 9);
    point.set_surface_point_metadata(SurfacePointMetadata {
        cartesian: 1,
        lat_long: (4, 5),
        territory_id: Some("andes".to_string()),
    });
    assert_eq!(point.get_surface_point_metadata().lat_long, (4, 5));
    point.get_surface_point_metadata_mut().territory_id = None;
    assert_eq!(point.get_surface_point_metadata().territory_id, None);
    assert_eq!(point.get_surface_point_metadata().cartesian, 1);
}
