use storekeeper::game_id::{ApiProvider, GameId};
use storekeeper::game_map::GameMap;
use storekeeper::provider_batch::{collect_results, fill_vacant, merge_game_resources, missing_games, provider_batches};

fn resources(entries: &[(GameId, &str)]) -> GameMap<String> {
    let mut m = GameMap::new();
    for (game_id, marker) in entries {
        m.insert(*game_id, format!("[{{\"type\":\"{marker}\"}}]"));
    }
    m
}

#[test]
fn registry_new_registry_is_empty() {
    let r: GameMap<&str> = GameMap::new();
    assert_eq!(r.len(), 0);
    assert!(r.is_empty());
}

#[test]
fn registry_default_registry_is_empty() {
    let r: GameMap<&str> = GameMap::default();
    assert_eq!(r.len(), 0);
    assert!(r.is_empty());
}

#[test]
fn register_single_client() {
    let mut r = GameMap::new();
    r.insert(GameId::GenshinImpact, "client");
    assert_eq!(r.len(), 1);
    assert!(!r.is_empty());
}

#[test]
fn register_multiple_clients() {
    let mut r = GameMap::new();
    r.insert(GameId::GenshinImpact, "client");
    r.insert(GameId::HonkaiStarRail, "client");
    r.insert(GameId::WutheringWaves, "client");
    assert_eq!(r.len(), 3);
}

#[test]
fn duplicate_game_id_replaces() {
    let mut r = GameMap::new();
    r.insert(GameId::GenshinImpact, "first");
    r.insert(GameId::GenshinImpact, "second");
    assert_eq!(r.len(), 1, "duplicate should replace, not add");
    assert_eq!(r.get(GameId::GenshinImpact), Some(&"second"));
}

#[test]
fn register_all_four_games() {
    let mut r = GameMap::new();
    for id in GameId::all() {
        r.insert(id, "client");
    }
    assert_eq!(r.len(), 4);
}

#[test]
fn daily_reward_registry_new_registry_is_empty() {
    let r: GameMap<u32> = GameMap::new();
    assert_eq!(r.len(), 0);
    assert!(r.is_empty());
}

#[test]
fn daily_reward_registry_default_registry_is_empty() {
    let r: GameMap<u32> = GameMap::default();
    assert_eq!(r.len(), 0);
    assert!(r.is_empty());
}

#[test]
fn register_and_has_game() {
    let mut r = GameMap::new();
    r.insert(GameId::GenshinImpact, "success");
    assert_eq!(r.len(), 1);
    assert!(!r.is_empty());
    assert!(r.contains(GameId::GenshinImpact));
    assert!(!r.contains(GameId::HonkaiStarRail));
}

#[test]
fn duplicate_replaces() {
    let mut r = GameMap::new();
    r.insert(GameId::GenshinImpact, "success");
    r.insert(GameId::GenshinImpact, "failing");
    assert_eq!(r.len(), 1);
}

#[test]
fn remove_returns_the_value_and_forgets_the_game() {
    let mut r = GameMap::new();
    r.insert(GameId::ZenlessZoneZero, 7u32);
    assert_eq!(r.remove(GameId::ZenlessZoneZero), Some(7));
    assert_eq!(r.remove(GameId::ZenlessZoneZero), None);
    assert!(r.is_empty());
}

#[test]
fn games_come_in_the_fixed_order() {
    let mut r = GameMap::new();
    r.insert(GameId::WutheringWaves, 1u8);
    r.insert(GameId::GenshinImpact, 2u8);
    assert_eq!(r.games(), vec![GameId::GenshinImpact, GameId::WutheringWaves]);
}

#[test]
fn verify_provider_grouping() {
    assert_eq!(GameId::GenshinImpact.api_provider(), ApiProvider::HoYoLab);
    assert_eq!(GameId::HonkaiStarRail.api_provider(), ApiProvider::HoYoLab);
    assert_eq!(GameId::ZenlessZoneZero.api_provider(), ApiProvider::HoYoLab);
    assert_eq!(GameId::WutheringWaves.api_provider(), ApiProvider::Kuro);
}

#[test]
fn provider_batches_keep_each_provider_in_order() {
    let games = vec![GameId::WutheringWaves, GameId::ZenlessZoneZero, GameId::GenshinImpact];
    let batches = provider_batches(&games, None);
    assert_eq!(
        batches,
        vec![
            (ApiProvider::HoYoLab, vec![GameId::ZenlessZoneZero, GameId::GenshinImpact]),
            (ApiProvider::Kuro, vec![GameId::WutheringWaves]),
        ]
    );
    let only = vec![GameId::WutheringWaves];
    assert_eq!(provider_batches(&games, Some(&only)), vec![(ApiProvider::Kuro, vec![GameId::WutheringWaves])]);
    assert!(provider_batches(&Vec::new(), None).is_empty());
}

#[test]
fn collect_results_keeps_the_successes() {
    let results: Vec<(GameId, Result<u32, String>)> = vec![
        (GameId::GenshinImpact, Ok(1)),
        (GameId::HonkaiStarRail, Err("boom".to_string())),
        (GameId::WutheringWaves, Ok(3)),
    ];
    let m = collect_results(results);
    assert_eq!(m.len(), 2);
    assert_eq!(m.get(GameId::GenshinImpact), Some(&1));
    assert_eq!(m.get(GameId::HonkaiStarRail), None);
    assert_eq!(m.get(GameId::WutheringWaves), Some(&3));
}

#[test]
fn merge_keeps_a_game_that_failed_to_fetch() {
    let merged = merge_game_resources(
        resources(&[(GameId::GenshinImpact, "cached"), (GameId::HonkaiStarRail, "cached")]),
        resources(&[(GameId::HonkaiStarRail, "fresh")]),
        &vec![GameId::GenshinImpact, GameId::HonkaiStarRail],
    );
    assert_eq!(
        merged,
        resources(&[(GameId::GenshinImpact, "cached"), (GameId::HonkaiStarRail, "fresh")]),
        "a game missing from the fetch should keep its last known values"
    );
}

#[test]
fn merge_drops_a_game_that_is_no_longer_configured() {
    let merged = merge_game_resources(
        resources(&[(GameId::GenshinImpact, "cached"), (GameId::HonkaiStarRail, "cached")]),
        GameMap::new(),
        &vec![GameId::GenshinImpact],
    );
    assert_eq!(merged, resources(&[(GameId::GenshinImpact, "cached")]));
}

#[test]
fn merge_adds_a_newly_configured_game() {
    let merged = merge_game_resources(
        GameMap::new(),
        resources(&[(GameId::ZenlessZoneZero, "fresh")]),
        &vec![GameId::ZenlessZoneZero],
    );
    assert_eq!(merged, resources(&[(GameId::ZenlessZoneZero, "fresh")]));
}

#[test]
fn all_resources_default_is_empty() {
    let r: GameMap<String> = GameMap::default();
    assert!(r.is_empty());
}

#[test]
fn all_daily_reward_status_default_is_empty() {
    let s: GameMap<u32> = GameMap::default();
    assert!(s.is_empty());
}

#[test]
fn refill_fetches_a_game_whose_status_is_absent() {
    let mut cached = resources(&[(GameId::GenshinImpact, "cached")]);
    let registered = vec![GameId::GenshinImpact, GameId::HonkaiStarRail];
    assert_eq!(missing_games(&registered, &cached), vec![GameId::HonkaiStarRail]);
    let fetched = resources(&[(GameId::HonkaiStarRail, "fresh")]);
    assert!(fill_vacant(&mut cached, fetched));
    assert_eq!(cached, resources(&[(GameId::GenshinImpact, "cached"), (GameId::HonkaiStarRail, "fresh")]));
}

#[test]
fn refill_reports_no_change_when_every_game_is_cached() {
    let cached = resources(&[(GameId::GenshinImpact, "cached"), (GameId::HonkaiStarRail, "cached")]);
    let registered = vec![GameId::GenshinImpact, GameId::HonkaiStarRail];
    assert!(missing_games(&registered, &cached).is_empty());
}

#[test]
fn refill_reports_no_change_when_the_fetch_fails_again() {
    let mut cached = resources(&[(GameId::GenshinImpact, "cached")]);
    assert!(!fill_vacant(&mut cached, GameMap::new()));
    assert_eq!(cached, resources(&[(GameId::GenshinImpact, "cached")]));
}

#[test]
fn fill_vacant_never_overwrites_a_cached_value() {
    let mut cached = resources(&[(GameId::GenshinImpact, "claimed")]);
    let fetched = resources(&[(GameId::GenshinImpact, "stale"), (GameId::WutheringWaves, "fresh")]);
    assert!(fill_vacant(&mut cached, fetched));
    assert_eq!(cached, resources(&[(GameId::GenshinImpact, "claimed"), (GameId::WutheringWaves, "fresh")]));
}
