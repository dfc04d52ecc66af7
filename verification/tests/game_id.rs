use std::collections::HashSet;
use storekeeper::game_id::{ApiProvider, GameId};

#[test]
fn test_api_provider_for_hoyolab_games() {
    assert_eq!(GameId::GenshinImpact.api_provider(), ApiProvider::HoYoLab, "Genshin Impact should use HoYoLab API");
    assert_eq!(GameId::HonkaiStarRail.api_provider(), ApiProvider::HoYoLab, "Honkai: Star Rail should use HoYoLab API");
    assert_eq!(GameId::ZenlessZoneZero.api_provider(), ApiProvider::HoYoLab, "Zenless Zone Zero should use HoYoLab API");
}

#[test]
fn test_api_provider_for_kuro_games() {
    assert_eq!(GameId::WutheringWaves.api_provider(), ApiProvider::Kuro, "Wuthering Waves should use Kuro API");
}

#[test]
fn test_as_str_matches_serde_format() {
    assert_eq!(GameId::GenshinImpact.as_str(), "GENSHIN_IMPACT");
    assert_eq!(GameId::HonkaiStarRail.as_str(), "HONKAI_STAR_RAIL");
    assert_eq!(GameId::ZenlessZoneZero.as_str(), "ZENLESS_ZONE_ZERO");
    assert_eq!(GameId::WutheringWaves.as_str(), "WUTHERING_WAVES");
}

#[test]
fn test_display_name_human_readable() {
    assert_eq!(GameId::GenshinImpact.display_name(), "Genshin Impact");
    assert_eq!(GameId::HonkaiStarRail.display_name(), "Honkai: Star Rail");
    assert_eq!(GameId::ZenlessZoneZero.display_name(), "Zenless Zone Zero");
    assert_eq!(GameId::WutheringWaves.display_name(), "Wuthering Waves");
}

#[test]
fn test_all_returns_four_games() {
    let all = GameId::all();
    assert_eq!(all.len(), 4, "Should return exactly 4 games");
}

#[test]
fn test_all_contains_all_variants() {
    let all = GameId::all();
    assert!(all.contains(&GameId::GenshinImpact), "Should contain Genshin Impact");
    assert!(all.contains(&GameId::HonkaiStarRail), "Should contain Honkai: Star Rail");
    assert!(all.contains(&GameId::ZenlessZoneZero), "Should contain Zenless Zone Zero");
    assert!(all.contains(&GameId::WutheringWaves), "Should contain Wuthering Waves");
}

#[test]
fn test_all_is_in_expected_order() {
    let all = GameId::all();
    assert_eq!(all[0], GameId::GenshinImpact);
    assert_eq!(all[1], GameId::HonkaiStarRail);
    assert_eq!(all[2], GameId::ZenlessZoneZero);
    assert_eq!(all[3], GameId::WutheringWaves);
}

#[test]
fn test_display_uses_display_name() {
    assert_eq!(format!("{}", GameId::GenshinImpact.display_name()), "Genshin Impact");
    assert_eq!(format!("{}", GameId::HonkaiStarRail.display_name()), "Honkai: Star Rail");
    assert_eq!(format!("{}", GameId::ZenlessZoneZero.display_name()), "Zenless Zone Zero");
    assert_eq!(format!("{}", GameId::WutheringWaves.display_name()), "Wuthering Waves");
}

#[test]
fn test_game_id_is_copy() {
    let game = GameId::GenshinImpact;
    let game2 = game;
    let game3 = game;
    assert_eq!(game, game2);
    assert_eq!(game, game3);
}

#[test]
fn test_game_id_eq() {
    assert_eq!(GameId::GenshinImpact, GameId::GenshinImpact);
    assert_ne!(GameId::GenshinImpact, GameId::HonkaiStarRail);
}

#[test]
fn test_game_id_hash() {
    let mut set = HashSet::new();
    set.insert(GameId::GenshinImpact);
    set.insert(GameId::HonkaiStarRail);
    set.insert(GameId::GenshinImpact);
    assert_eq!(set.len(), 2, "HashSet should have 2 unique games");
    assert!(set.contains(&GameId::GenshinImpact));
    assert!(set.contains(&GameId::HonkaiStarRail));
}

#[test]
fn test_api_provider_eq() {
    assert_eq!(ApiProvider::HoYoLab, ApiProvider::HoYoLab);
    assert_eq!(ApiProvider::Kuro, ApiProvider::Kuro);
    assert_ne!(ApiProvider::HoYoLab, ApiProvider::Kuro);
}

#[test]
fn test_api_provider_hash() {
    let mut set = HashSet::new();
    set.insert(ApiProvider::HoYoLab);
    set.insert(ApiProvider::Kuro);
    set.insert(ApiProvider::HoYoLab);
    assert_eq!(set.len(), 2, "HashSet should have 2 unique providers");
}

#[test]
fn short_ids_name_each_game() {
    let ids: Vec<&str> = GameId::all().iter().map(|g| g.short_id()).collect();
    assert_eq!(ids, vec!["genshin", "hsr", "zzz", "wuwa"]);
}
