use storekeeper::i18n::MessageStore;
use storekeeper::game_id::GameId;
use storekeeper::message_builder::{build_notification_body, game_display_name, resource_display_name};
use storekeeper::notification::ResourceInfo;

const MINUTE: i64 = 60;

/// The English notification messages these tests read.
fn store() -> MessageStore {
    let strings: Vec<(String, String)> = [
        ("resource_resin", "Original Resin"),
        ("resource_parametric_transformer", "Parametric Transformer"),
        ("resource_realm_currency", "Realm Currency"),
        ("resource_expeditions", "Expeditions"),
        ("resource_trailblaze_power", "Trailblaze Power"),
        ("resource_battery", "Battery"),
        ("resource_waveplates", "Waveplates"),
        ("resource_unknown", "Unknown Resource"),
        ("game_genshin_name", "Genshin Impact"),
        ("game_hsr_name", "Honkai: Star Rail"),
        ("game_zzz_name", "Zenless Zone Zero"),
        ("game_wuwa_name", "Wuthering Waves"),
        ("notification_stamina_full", "Full!"),
        ("notification_stamina_progress", "{current}/{max} \u{b7} full in {duration} ({local_time})"),
        ("notification_cooldown_complete", "Ready!"),
        ("notification_cooldown_remaining", "Ready in {duration} ({local_time})"),
    ]
    .iter()
    .map(|(k, v)| (k.to_string(), v.to_string()))
    .collect();
    let mut s = MessageStore::new();
    s.init("en", strings).expect("English ships with the application");
    s
}

fn now() -> i64 {
    chrono::Utc::now().timestamp()
}

fn stamina(completion_at: i64, is_complete: bool, current: u64) -> ResourceInfo {
    ResourceInfo {
        completion_at,
        is_complete,
        current: Some(current),
        max: Some(160),
        regen_rate_seconds: Some(480),
        regen_step_units: None,
    }
}

fn cooldown(completion_at: i64, is_complete: bool) -> ResourceInfo {
    ResourceInfo { completion_at, is_complete, current: None, max: None, regen_rate_seconds: None, regen_step_units: None }
}

#[test]
fn message_builder_test_display_names() {
    let s = store();
    assert_eq!(resource_display_name(&s, "resin"), "Original Resin");
    assert_eq!(resource_display_name(&s, "parametric_transformer"), "Parametric Transformer");
    assert_eq!(resource_display_name(&s, "realm_currency"), "Realm Currency");
    assert_eq!(resource_display_name(&s, "expeditions"), "Expeditions");
    assert_eq!(resource_display_name(&s, "trailblaze_power"), "Trailblaze Power");
    assert_eq!(resource_display_name(&s, "battery"), "Battery");
    assert_eq!(resource_display_name(&s, "waveplates"), "Waveplates");
}

#[test]
fn message_builder_test_display_name_unknown_fallback() {
    assert_eq!(resource_display_name(&store(), "unknown_thing"), "Unknown Resource");
}

#[test]
fn test_stamina_full() {
    let now = now();
    let body = build_notification_body(&store(), &stamina(now, true, 160), now, "3:45 PM");
    assert_eq!(body, "Full!");
}

#[test]
fn test_stamina_not_full_shows_status() {
    let now = now();
    let body = build_notification_body(&store(), &stamina(now + 75 * MINUTE, false, 140), now, "3:45 PM");
    assert!(body.contains("/160"));
}

#[test]
fn test_cooldown_complete() {
    let now = now();
    let body = build_notification_body(&store(), &cooldown(now, true), now, "3:45 PM");
    assert_eq!(body, "Ready!");
}

#[test]
fn test_cooldown_not_complete() {
    let now = now();
    let body = build_notification_body(&store(), &cooldown(now + 30 * MINUTE, false), now, "3:45 PM");
    assert!(body.contains("Ready in"));
}

#[test]
fn test_stamina_duration_over_24h() {
    let now = now();
    let body = build_notification_body(&store(), &stamina(now + 3000 * MINUTE, false, 10), now, "Mon 3:45 PM");
    assert!(body.contains("2d"), "Expected '2d' in: {body}");
}

#[test]
fn test_cooldown_duration_over_24h() {
    let now = now();
    let body = build_notification_body(&store(), &cooldown(now + 3000 * MINUTE, false), now, "Mon 3:45 PM");
    assert!(body.contains("2d"), "Expected '2d' in: {body}");
}

#[test]
fn stamina_progress_uses_the_estimated_value_and_the_given_local_time() {
    let body = build_notification_body(&store(), &stamina(10_000 + 20 * 480, false, 100), 10_000, "5:30 PM");
    assert!(body.starts_with("140/160"), "got {body}");
    assert!(body.ends_with("(5:30 PM)"), "got {body}");
}

#[test]
fn an_uninitialized_store_gives_the_keys() {
    let s = MessageStore::new();
    assert_eq!(resource_display_name(&s, "resin"), "resource_unknown");
    assert_eq!(build_notification_body(&s, &cooldown(0, true), 0, "x"), "notification_cooldown_complete");
}

#[test]
fn game_names_come_from_the_short_id_keys() {
    let s = store();
    assert_eq!(game_display_name(&s, GameId::GenshinImpact), "Genshin Impact");
    assert_eq!(game_display_name(&s, GameId::HonkaiStarRail), "Honkai: Star Rail");
    assert_eq!(game_display_name(&s, GameId::ZenlessZoneZero), "Zenless Zone Zero");
    assert_eq!(game_display_name(&s, GameId::WutheringWaves), "Wuthering Waves");
    assert_eq!(game_display_name(&MessageStore::new(), GameId::WutheringWaves), "game_wuwa_name");
}
