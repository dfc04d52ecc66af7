use storekeeper::game_id::GameId;
use storekeeper::notification::{NotificationTracker, ResourceInfo, ResourceNotificationConfig};

const MINUTE: i64 = 60;
const HOUR: i64 = 3600;

fn now() -> i64 {
    chrono::Utc::now().timestamp()
}

fn stub_config(threshold_min: u32, cooldown_min: u32) -> ResourceNotificationConfig {
    ResourceNotificationConfig::new(
        true,
        if threshold_min > 0 { Some(threshold_min) } else { None },
        None,
        cooldown_min,
    )
}

fn value_config(threshold: u64) -> ResourceNotificationConfig {
    ResourceNotificationConfig::new(true, None, Some(threshold), 10)
}

fn stub_info(completion_at: i64, is_complete: bool) -> ResourceInfo {
    ResourceInfo {
        completion_at,
        is_complete,
        current: None,
        max: None,
        regen_rate_seconds: None,
        regen_step_units: None,
    }
}

fn stamina_info(completion_at: i64, current: Option<u64>, rate: Option<u64>) -> ResourceInfo {
    ResourceInfo {
        completion_at,
        is_complete: false,
        current,
        max: Some(160),
        regen_rate_seconds: rate,
        regen_step_units: None,
    }
}

#[test]
fn notification_test_not_in_window_clears_and_returns_false() {
    let mut tracker = NotificationTracker::default();
    let now = now();
    let game = GameId::GenshinImpact;
    let config = stub_config(60, 10);
    tracker.record(game, "resin", now - HOUR);
    let info = stub_info(now + 2 * HOUR, false);
    assert!(!tracker.should_notify(game, "resin", &config, &info, now));
    let in_window_info = stub_info(now + 30 * MINUTE, false);
    assert!(tracker.should_notify(game, "resin", &config, &in_window_info, now));
}

#[test]
fn notification_test_in_window_first_time_returns_true() {
    let mut tracker = NotificationTracker::default();
    let now = now();
    let config = stub_config(60, 10);
    let info = stub_info(now + 30 * MINUTE, false);
    assert!(tracker.should_notify(GameId::GenshinImpact, "resin", &config, &info, now));
}

#[test]
fn notification_test_in_window_within_cooldown_returns_false() {
    let mut tracker = NotificationTracker::default();
    let now = now();
    let game = GameId::GenshinImpact;
    let config = stub_config(60, 10);
    tracker.record(game, "resin", now);
    let info = stub_info(now + 30 * MINUTE, false);
    let later = now + 5 * MINUTE;
    assert!(!tracker.should_notify(game, "resin", &config, &info, later));
}

#[test]
fn notification_test_in_window_after_cooldown_expired_returns_true() {
    let mut tracker = NotificationTracker::default();
    let now = now();
    let game = GameId::HonkaiStarRail;
    let config = stub_config(60, 10);
    tracker.record(game, "trailblaze_power", now);
    let info = stub_info(now + 30 * MINUTE, false);
    let later = now + 11 * MINUTE;
    assert!(tracker.should_notify(game, "trailblaze_power", &config, &info, later));
}

#[test]
fn notification_test_at_full_returns_true() {
    let mut tracker = NotificationTracker::default();
    let now = now();
    let config = stub_config(60, 10);
    let info = stub_info(now - 1, true);
    assert!(tracker.should_notify(GameId::ZenlessZoneZero, "battery", &config, &info, now));
}

#[test]
fn notification_test_clear_resets_state() {
    let mut tracker = NotificationTracker::default();
    let now = now();
    let game = GameId::WutheringWaves;
    let config = stub_config(60, 10);
    tracker.record(game, "waveplates", now);
    let info = stub_info(now + 30 * MINUTE, false);
    assert!(!tracker.should_notify(game, "waveplates", &config, &info, now));
    tracker.clear(game, "waveplates");
    assert!(tracker.should_notify(game, "waveplates", &config, &info, now));
}

#[test]
fn notification_test_zero_cooldown_notifies_once_then_stops() {
    let mut tracker = NotificationTracker::default();
    let now = now();
    let game = GameId::GenshinImpact;
    let config = stub_config(60, 0);
    let info = stub_info(now + 30 * MINUTE, false);
    assert!(tracker.should_notify(game, "resin", &config, &info, now));
    tracker.record(game, "resin", now);
    let much_later = now + 24 * HOUR;
    assert!(!tracker.should_notify(game, "resin", &config, &info, much_later));
}

#[test]
fn notification_test_zero_cooldown_resets_on_leaving_window() {
    let mut tracker = NotificationTracker::default();
    let now = now();
    let game = GameId::GenshinImpact;
    let config = stub_config(60, 0);
    let in_window = stub_info(now + 30 * MINUTE, false);
    assert!(tracker.should_notify(game, "resin", &config, &in_window, now));
    tracker.record(game, "resin", now);
    let out_of_window = stub_info(now + 5 * HOUR, false);
    assert!(!tracker.should_notify(game, "resin", &config, &out_of_window, now));
    assert!(tracker.should_notify(game, "resin", &config, &in_window, now));
}

#[test]
fn notification_test_value_threshold_with_regen_rate() {
    let mut tracker = NotificationTracker::default();
    let now = now();
    let config = value_config(140);
    let info = stamina_info(now + 100 * MINUTE, Some(120), Some(480));
    assert!(tracker.should_notify(GameId::GenshinImpact, "resin", &config, &info, now));
}

#[test]
fn notification_test_value_threshold_not_in_window() {
    let mut tracker = NotificationTracker::default();
    let now = now();
    let config = value_config(140);
    let info = stamina_info(now + 200 * MINUTE, Some(100), Some(480));
    assert!(!tracker.should_notify(GameId::GenshinImpact, "resin", &config, &info, now));
}

#[test]
fn notification_test_value_threshold_regen_rate_math_boundary() {
    let mut tracker = NotificationTracker::default();
    let now = now();
    let config = value_config(140);
    let at_boundary = stamina_info(now + 160 * MINUTE, Some(120), Some(480));
    assert!(tracker.should_notify(GameId::GenshinImpact, "resin", &config, &at_boundary, now));
    tracker.clear(GameId::GenshinImpact, "resin");
    let outside_boundary = stamina_info(now + 161 * MINUTE, Some(119), Some(480));
    assert!(!tracker.should_notify(GameId::GenshinImpact, "resin", &config, &outside_boundary, now));
}

#[test]
fn notification_test_value_threshold_fallback_direct_comparison() {
    let mut tracker = NotificationTracker::default();
    let now = now();
    let config = value_config(140);
    let info = stamina_info(now + HOUR, Some(145), None);
    assert!(tracker.should_notify(GameId::GenshinImpact, "resin", &config, &info, now));
}

#[test]
fn notification_test_value_threshold_fallback_below_threshold() {
    let mut tracker = NotificationTracker::default();
    let now = now();
    let config = value_config(140);
    let info = stamina_info(now + HOUR, Some(100), None);
    assert!(!tracker.should_notify(GameId::GenshinImpact, "resin", &config, &info, now));
}

#[test]
fn notification_test_neither_threshold_only_notifies_when_full() {
    let mut tracker = NotificationTracker::default();
    let now = now();
    let config = ResourceNotificationConfig::new(true, None, None, 10);
    let info = stub_info(now + 5 * MINUTE, false);
    assert!(!tracker.should_notify(GameId::GenshinImpact, "resin", &config, &info, now));
    let full_info = stub_info(now - 1, true);
    assert!(tracker.should_notify(GameId::GenshinImpact, "resin", &config, &full_info, now));
}

use storekeeper::notification::{
    extract_resource_info, notification_setting, notification_title, resource_display_name,
    resource_notification_body, resource_shape, resolve_notifiable_resource, ResourceData, ResourceShape,
};
use storekeeper::resource::{CooldownResource, ExpeditionResource, StaminaResource};

#[test]
fn notification_test_display_names() {
    assert_eq!(resource_display_name(GameId::GenshinImpact, "resin"), "Original Resin");
    assert_eq!(resource_display_name(GameId::GenshinImpact, "parametric_transformer"), "Parametric Transformer");
    assert_eq!(resource_display_name(GameId::GenshinImpact, "realm_currency"), "Realm Currency");
    assert_eq!(resource_display_name(GameId::GenshinImpact, "expeditions"), "Expeditions");
    assert_eq!(resource_display_name(GameId::HonkaiStarRail, "trailblaze_power"), "Trailblaze Power");
    assert_eq!(resource_display_name(GameId::ZenlessZoneZero, "battery"), "Battery");
    assert_eq!(resource_display_name(GameId::WutheringWaves, "waveplates"), "Waveplates");
}

#[test]
fn notification_test_display_name_unknown_fallback() {
    assert_eq!(resource_display_name(GameId::GenshinImpact, "unknown_thing"), "Unknown Resource");
    assert_eq!(resource_display_name(GameId::WutheringWaves, "resin"), "Unknown Resource");
}

#[test]
fn test_extract_stamina_resource() {
    let now = now();
    let future = now + 2 * HOUR;
    let data = ResourceData::Stamina(StaminaResource::new(100, 160, future, 480));
    let info = extract_resource_info("resin", Some(data), now).expect("should extract stamina resource");
    assert!(!info.is_complete);
    assert!((info.completion_at - future).abs() < 2);
}

#[test]
fn test_extract_stamina_resource_full() {
    let now = now();
    let data = ResourceData::Stamina(StaminaResource::new(160, 160, now - HOUR, 480));
    let info = extract_resource_info("resin", Some(data), now).expect("should extract full stamina resource");
    assert!(info.is_complete);
}

#[test]
fn test_extract_cooldown_resource_ready() {
    let now = now();
    let data = ResourceData::Cooldown(CooldownResource::new(true, now - HOUR));
    let info = extract_resource_info("parametric_transformer", Some(data), now).expect("should extract cooldown resource");
    assert!(info.is_complete);
}

#[test]
fn test_extract_cooldown_resource_not_ready() {
    let now = now();
    let data = ResourceData::Cooldown(CooldownResource::new(false, now + 12 * HOUR));
    let info = extract_resource_info("parametric_transformer", Some(data), now).expect("should extract cooldown resource");
    assert!(!info.is_complete);
}

#[test]
fn test_extract_expedition_resource_completed() {
    let now = now();
    let data = ResourceData::Expedition(ExpeditionResource::new(3, 5, now - 30 * MINUTE));
    let info = extract_resource_info("expeditions", Some(data), now).expect("should extract expedition resource");
    assert!(info.is_complete);
}

#[test]
fn test_extract_expedition_resource_pending() {
    let now = now();
    let data = ResourceData::Expedition(ExpeditionResource::new(3, 5, now + 6 * HOUR));
    let info = extract_resource_info("expeditions", Some(data), now).expect("should extract expedition resource");
    assert!(!info.is_complete);
}

#[test]
fn test_extract_unknown_resource_returns_none() {
    assert!(extract_resource_info("resin", None, now()).is_none());
}

#[test]
fn extract_reads_data_only_in_the_shape_its_tag_asks_for() {
    let now = now();
    let cooldown = ResourceData::Cooldown(CooldownResource::new(true, now));
    assert!(extract_resource_info("resin", Some(cooldown), now).is_none());
    assert_eq!(resource_shape("parametric_transformer"), ResourceShape::Cooldown);
    assert_eq!(resource_shape("expeditions"), ResourceShape::Expedition);
    assert_eq!(resource_shape("battery"), ResourceShape::Stamina);
}

#[test]
fn test_body_text_before_full() {
    let now = now();
    let info = stub_info(now + 45 * MINUTE, false);
    let body = resource_notification_body("Original Resin", &info, &stub_config(60, 10), now);
    assert!(body.contains("45 minutes") || body.contains("44 minutes"));
    assert_eq!(body, "Original Resin will be full in 45 minutes");
}

#[test]
fn test_body_text_just_full() {
    let now = now();
    let info = stub_info(now, true);
    let body = resource_notification_body("Original Resin", &info, &stub_config(60, 10), now);
    assert_eq!(body, "Original Resin is full!");
}

#[test]
fn test_body_text_after_full() {
    let now = now();
    let info = stub_info(now - 15 * MINUTE, true);
    let body = resource_notification_body("Original Resin", &info, &stub_config(60, 10), now);
    assert!(body.contains("15 minutes"));
    assert_eq!(body, "Original Resin has been full for 15 minutes");
}

#[test]
fn body_text_in_value_mode_reports_the_value() {
    let info = stamina_info(10_000, Some(140), Some(480));
    let body = resource_notification_body("Original Resin", &info, &value_config(140), 0);
    assert_eq!(body, "Original Resin has reached 140/160");
    let info = stub_info(10_000, false);
    let body = resource_notification_body("Original Resin", &info, &value_config(140), 0);
    assert_eq!(body, "Original Resin threshold reached");
}

#[test]
fn title_joins_game_and_resource_with_a_dash() {
    assert_eq!(notification_title("Genshin Impact", "Original Resin"), "Genshin Impact \u{2014} Original Resin");
}

#[test]
fn notification_setting_takes_the_last_entry_when_enabled() {
    let on = ResourceNotificationConfig::new(true, Some(30), None, 5);
    let off = ResourceNotificationConfig::new(false, Some(30), None, 5);
    let settings = vec![("resin".to_string(), off), ("resin".to_string(), on)];
    assert_eq!(notification_setting(&settings, "resin"), Some(on));
    let settings = vec![("resin".to_string(), on), ("resin".to_string(), off)];
    assert_eq!(notification_setting(&settings, "resin"), None);
    assert_eq!(notification_setting(&settings, "battery"), None);
}

#[test]
fn resolve_notifiable_resource_needs_enabled_settings_and_readable_data() {
    let on = ResourceNotificationConfig::new(true, Some(30), None, 5);
    let off = ResourceNotificationConfig::new(false, Some(30), None, 5);
    let data = Some(ResourceData::Stamina(StaminaResource::new(10, 160, 5_000, 480)));
    let settings = vec![("resin".to_string(), on), ("battery".to_string(), off)];
    let (config, info) = resolve_notifiable_resource(&settings, "resin", data, 1_000).expect("resin is notifiable");
    assert_eq!(config, on);
    assert_eq!(info.completion_at, 5_000);
    assert!(resolve_notifiable_resource(&settings, "battery", data, 1_000).is_none());
    assert!(resolve_notifiable_resource(&settings, "waveplates", data, 1_000).is_none());
    assert!(resolve_notifiable_resource(&settings, "resin", None, 1_000).is_none());
}
