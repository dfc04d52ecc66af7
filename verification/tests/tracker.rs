use storekeeper::game_id::GameId;
use storekeeper::notification::{select_due, NotificationTracker, ResourceInfo, ResourceNotificationConfig};

const MINUTE: i64 = 60;
const HOUR: i64 = 3600;

fn now() -> i64 {
    chrono::Utc::now().timestamp()
}

fn stub_config(threshold_min: u32, cooldown_min: u32) -> ResourceNotificationConfig {
    ResourceNotificationConfig::new(
        true,
        if threshold_min > 0 { Some(threshold_min) } else { None },
        None,
        cooldown_min,
    )
}

fn value_config(threshold: u64) -> ResourceNotificationConfig {
    ResourceNotificationConfig::new(true, None, Some(threshold), 10)
}

fn stub_info(completion_at: i64, is_complete: bool) -> ResourceInfo {
    ResourceInfo {
        completion_at,
        is_complete,
        current: None,
        max: None,
        regen_rate_seconds: None,
        regen_step_units: None,
    }
}

fn stamina_info(completion_at: i64, current: Option<u64>, rate: Option<u64>) -> ResourceInfo {
    ResourceInfo {
        completion_at,
        is_complete: false,
        current,
        max: Some(160),
        regen_rate_seconds: rate,
        regen_step_units: None,
    }
}

#[test]
fn tracker_test_not_in_window_clears_and_returns_false() {
    let mut tracker = NotificationTracker::default();
    let now = now();
    let game = GameId::GenshinImpact;
    let config = stub_config(60, 10);
    tracker.record(game, "resin", now - HOUR);
    let info = stub_info(now + 2 * HOUR, false);
    assert!(!tracker.should_notify(game, "resin", &config, &info, now));
    let in_window_info = stub_info(now + 30 * MINUTE, false);
    assert!(tracker.should_notify(game, "resin", &config, &in_window_info, now));
}

#[test]
fn tracker_test_in_window_first_time_returns_true() {
    let mut tracker = NotificationTracker::default();
    let now = now();
    let config = stub_config(60, 10);
    let info = stub_info(now + 30 * MINUTE, false);
    assert!(tracker.should_notify(GameId::GenshinImpact, "resin", &config, &info, now));
}

#[test]
fn tracker_test_in_window_within_cooldown_returns_false() {
    let mut tracker = NotificationTracker::default();
    let now = now();
    let game = GameId::GenshinImpact;
    let config = stub_config(60, 10);
    tracker.record(game, "resin", now);
    let info = stub_info(now + 30 * MINUTE, false);
    let later = now + 5 * MINUTE;
    assert!(!tracker.should_notify(game, "resin", &config, &info, later));
}

#[test]
fn tracker_test_in_window_after_cooldown_expired_returns_true() {
    let mut tracker = NotificationTracker::default();
    let now = now();
    let game = GameId::HonkaiStarRail;
    let config = stub_config(60, 10);
    tracker.record(game, "trailblaze_power", now);
    let info = stub_info(now + 30 * MINUTE, false);
    let later = now + 11 * MINUTE;
    assert!(tracker.should_notify(game, "trailblaze_power", &config, &info, later));
}

#[test]
fn tracker_test_at_full_returns_true() {
    let mut tracker = NotificationTracker::default();
    let now = now();
    let config = stub_config(60, 10);
    let info = stub_info(now - 1, true);
    assert!(tracker.should_notify(GameId::ZenlessZoneZero, "battery", &config, &info, now));
}

#[test]
fn tracker_test_clear_resets_state() {
    let mut tracker = NotificationTracker::default();
    let now = now();
    let game = GameId::WutheringWaves;
    let config = stub_config(60, 10);
    tracker.record(game, "waveplates", now);
    let info = stub_info(now + 30 * MINUTE, false);
    assert!(!tracker.should_notify(game, "waveplates", &config, &info, now));
    tracker.clear(game, "waveplates");
    assert!(tracker.should_notify(game, "waveplates", &config, &info, now));
}

#[test]
fn tracker_test_zero_cooldown_notifies_once_then_stops() {
    let mut tracker = NotificationTracker::default();
    let now = now();
    let game = GameId::GenshinImpact;
    let config = stub_config(60, 0);
    let info = stub_info(now + 30 * MINUTE, false);
    assert!(tracker.should_notify(game, "resin", &config, &info, now));
    tracker.record(game, "resin", now);
    let much_later = now + 24 * HOUR;
    assert!(!tracker.should_notify(game, "resin", &config, &info, much_later));
}

#[test]
fn tracker_test_zero_cooldown_resets_on_leaving_window() {
    let mut tracker = NotificationTracker::default();
    let now = now();
    let game = GameId::GenshinImpact;
    let config = stub_config(60, 0);
    let in_window = stub_info(now + 30 * MINUTE, false);
    assert!(tracker.should_notify(game, "resin", &config, &in_window, now));
    tracker.record(game, "resin", now);
    let out_of_window = stub_info(now + 5 * HOUR, false);
    assert!(!tracker.should_notify(game, "resin", &config, &out_of_window, now));
    assert!(tracker.should_notify(game, "resin", &config, &in_window, now));
}

#[test]
fn tracker_test_value_threshold_with_regen_rate() {
    let mut tracker = NotificationTracker::default();
    let now = now();
    let config = value_config(140);
    let info = stamina_info(now + 100 * MINUTE, Some(120), Some(480));
    assert!(tracker.should_notify(GameId::GenshinImpact, "resin", &config, &info, now));
}

#[test]
fn tracker_test_value_threshold_not_in_window() {
    let mut tracker = NotificationTracker::default();
    let now = now();
    let config = value_config(140);
    let info = stamina_info(now + 200 * MINUTE, Some(100), Some(480));
    assert!(!tracker.should_notify(GameId::GenshinImpact, "resin", &config, &info, now));
}

#[test]
fn tracker_test_value_threshold_regen_rate_math_boundary() {
    let mut tracker = NotificationTracker::default();
    let now = now();
    let config = value_config(140);
    let at_boundary = stamina_info(now + 160 * MINUTE, Some(120), Some(480));
    assert!(tracker.should_notify(GameId::GenshinImpact, "resin", &config, &at_boundary, now));
    tracker.clear(GameId::GenshinImpact, "resin");
    let outside_boundary = stamina_info(now + 161 * MINUTE, Some(119), Some(480));
    assert!(!tracker.should_notify(GameId::GenshinImpact, "resin", &config, &outside_boundary, now));
}

#[test]
fn tracker_test_value_threshold_fallback_direct_comparison() {
    let mut tracker = NotificationTracker::default();
    let now = now();
    let config = value_config(140);
    let info = stamina_info(now + HOUR, Some(145), None);
    assert!(tracker.should_notify(GameId::GenshinImpact, "resin", &config, &info, now));
}

#[test]
fn tracker_test_value_threshold_fallback_below_threshold() {
    let mut tracker = NotificationTracker::default();
    let now = now();
    let config = value_config(140);
    let info = stamina_info(now + HOUR, Some(100), None);
    assert!(!tracker.should_notify(GameId::GenshinImpact, "resin", &config, &info, now));
}

#[test]
fn tracker_test_neither_threshold_only_notifies_when_full() {
    let mut tracker = NotificationTracker::default();
    let now = now();
    let config = ResourceNotificationConfig::new(true, None, None, 10);
    let info = stub_info(now + 5 * MINUTE, false);
    assert!(!tracker.should_notify(GameId::GenshinImpact, "resin", &config, &info, now));
    let full_info = stub_info(now - 1, true);
    assert!(tracker.should_notify(GameId::GenshinImpact, "resin", &config, &full_info, now));
}

#[test]
fn clear_for_game_and_clear_all_forget_cooldowns() {
    let mut tracker = NotificationTracker::new();
    tracker.record(GameId::GenshinImpact, "resin", 100);
    tracker.record(GameId::GenshinImpact, "expeditions", 100);
    tracker.record(GameId::WutheringWaves, "waveplates", 100);
    assert_eq!(tracker.len(), 3);
    assert_eq!(tracker.last_notified(GameId::GenshinImpact, "resin"), Some(100));
    tracker.record(GameId::GenshinImpact, "resin", 200);
    assert_eq!(tracker.len(), 3);
    assert_eq!(tracker.last_notified(GameId::GenshinImpact, "resin"), Some(200));
    tracker.clear_for_game(GameId::GenshinImpact);
    assert_eq!(tracker.len(), 1);
    assert_eq!(tracker.last_notified(GameId::GenshinImpact, "resin"), None);
    assert_eq!(tracker.last_notified(GameId::WutheringWaves, "waveplates"), Some(100));
    tracker.clear_all();
    assert_eq!(tracker.len(), 0);
}

#[test]
fn cooldown_is_exactly_the_configured_minutes() {
    let mut tracker = NotificationTracker::new();
    let config = stub_config(60, 10);
    let info = stub_info(1_000_000 + 30 * MINUTE, false);
    tracker.record(GameId::GenshinImpact, "resin", 1_000_000);
    assert!(!tracker.should_notify(GameId::GenshinImpact, "resin", &config, &info, 1_000_000 + 10 * MINUTE - 1));
    assert!(tracker.should_notify(GameId::GenshinImpact, "resin", &config, &info, 1_000_000 + 10 * MINUTE));
}

#[test]
fn select_due_checks_each_candidate_in_order() {
    let mut tracker = NotificationTracker::new();
    let now = 1_000_000;
    let config = stub_config(60, 10);
    tracker.record(GameId::HonkaiStarRail, "trailblaze_power", now - MINUTE);
    tracker.record(GameId::WutheringWaves, "waveplates", now - HOUR);
    let candidates = vec![
        (GameId::GenshinImpact, "resin".to_string(), config, stub_info(now + 30 * MINUTE, false)),
        (GameId::HonkaiStarRail, "trailblaze_power".to_string(), config, stub_info(now + 30 * MINUTE, false)),
        (GameId::WutheringWaves, "waveplates".to_string(), config, stub_info(now + 5 * HOUR, false)),
        (GameId::ZenlessZoneZero, "battery".to_string(), config, stub_info(now - 1, true)),
    ];
    assert_eq!(select_due(&mut tracker, &candidates, now), vec![0, 3]);
    assert_eq!(tracker.last_notified(GameId::WutheringWaves, "waveplates"), None);
    assert_eq!(tracker.last_notified(GameId::HonkaiStarRail, "trailblaze_power"), Some(now - MINUTE));
    assert_eq!(tracker.len(), 1);
}
