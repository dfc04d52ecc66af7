use storekeeper::config::{AppConfig, GamesConfig, GenshinConfig, HoyolabSecrets, KuroSecrets, SecretsConfig, WuwaConfig};
use storekeeper::config_diff::compute;
use storekeeper::game_id::GameId;
use storekeeper::notification::ResourceNotificationConfig;
use storekeeper::resource_types::{GenshinResourceType, WuwaResourceType};

fn default_genshin() -> GenshinConfig {
    GenshinConfig {
        enabled: true,
        uid: "123456789".to_string(),
        region: None,
        tracked_resources: GenshinResourceType::all(),
        auto_claim_daily_rewards: false,
        auto_claim_time: None,
        notifications: Vec::new(),
    }
}

fn default_wuwa() -> WuwaConfig {
    WuwaConfig {
        enabled: true,
        player_id: "987654321".to_string(),
        region: None,
        tracked_resources: WuwaResourceType::all(),
        notifications: Vec::new(),
    }
}

fn config_with_genshin(genshin: GenshinConfig) -> AppConfig {
    AppConfig { games: GamesConfig { genshin_impact: Some(genshin), ..Default::default() }, ..Default::default() }
}

fn config_with_wuwa(wuwa: WuwaConfig) -> AppConfig {
    AppConfig { games: GamesConfig { wuthering_waves: Some(wuwa), ..Default::default() }, ..Default::default() }
}

#[test]
fn no_changes_produces_empty_diff() {
    let config = AppConfig::default();
    let secrets = SecretsConfig::default();
    let diff = compute(&config, &config, &secrets, &secrets);
    assert!(diff.is_empty());
}

#[test]
fn language_change_only() {
    let mut old = AppConfig::default();
    old.general.language = Some("en".to_string());
    let mut new = old.clone();
    new.general.language = Some("zh-CN".to_string());
    let secrets = SecretsConfig::default();
    let diff = compute(&old, &new, &secrets, &secrets);
    assert!(diff.general.locale_changed);
    assert!(!diff.general.autostart_changed);
    assert!(!diff.needs_registry_rebuild);
    assert!(diff.games_to_refresh.is_empty());
}

#[test]
fn autostart_change_only() {
    let old = AppConfig::default();
    let mut new = old.clone();
    new.general.autostart = true;
    let secrets = SecretsConfig::default();
    let diff = compute(&old, &new, &secrets, &secrets);
    assert!(!diff.general.locale_changed);
    assert!(diff.general.autostart_changed);
    assert!(!diff.needs_registry_rebuild);
    assert!(diff.games_to_refresh.is_empty());
}

#[test]
fn log_level_change_only() {
    let old = AppConfig::default();
    let mut new = old.clone();
    new.general.log_level = "debug".to_string();
    let secrets = SecretsConfig::default();
    let diff = compute(&old, &new, &secrets, &secrets);
    assert!(diff.general.log_level_changed);
    assert!(!diff.is_empty(), "a level change must reach the apply step");
    assert!(!diff.needs_registry_rebuild);
    assert!(diff.games_to_refresh.is_empty());
}

#[test]
fn game_uid_change_triggers_rebuild_and_refresh() {
    let old = config_with_genshin(default_genshin());
    let mut new_genshin = default_genshin();
    new_genshin.uid = "999999999".to_string();
    let new = config_with_genshin(new_genshin);
    let secrets = SecretsConfig::default();
    let diff = compute(&old, &new, &secrets, &secrets);
    assert!(diff.needs_registry_rebuild);
    assert!(diff.games_to_refresh.contains(&GameId::GenshinImpact));
}

#[test]
fn game_enabled_toggle_triggers_rebuild() {
    let old = config_with_genshin(default_genshin());
    let mut new_genshin = default_genshin();
    new_genshin.enabled = false;
    let new = config_with_genshin(new_genshin);
    let secrets = SecretsConfig::default();
    let diff = compute(&old, &new, &secrets, &secrets);
    assert!(diff.needs_registry_rebuild);
    assert!(!diff.games_to_refresh.contains(&GameId::GenshinImpact));
}

#[test]
fn notification_change_only_resets_cooldowns() {
    let old = config_with_genshin(default_genshin());
    let mut new_genshin = default_genshin();
    new_genshin.notifications.push((
        GenshinResourceType::Resin,
        ResourceNotificationConfig {
            enabled: true,
            notify_minutes_before_full: Some(30),
            notify_at_value: None,
            cooldown_minutes: 10,
        },
    ));
    let new = config_with_genshin(new_genshin);
    let secrets = SecretsConfig::default();
    let diff = compute(&old, &new, &secrets, &secrets);
    assert!(!diff.needs_registry_rebuild);
    assert!(diff.games_to_refresh.is_empty());
    assert!(diff.games_to_reset_notifications.contains(&GameId::GenshinImpact));
}

#[test]
fn hoyolab_secrets_change_refreshes_all_hoyolab_games() {
    let genshin = default_genshin();
    let old = config_with_genshin(genshin.clone());
    let new = old.clone();
    let old_secrets = SecretsConfig::default();
    let new_secrets = SecretsConfig {
        hoyolab: HoyolabSecrets {
            ltuid_v2: "new_uid".to_string(),
            ltoken_v2: "new_token".to_string(),
            ltmid_v2: "new_mid".to_string(),
        },
        ..Default::default()
    };
    let diff = compute(&old, &new, &old_secrets, &new_secrets);
    assert!(diff.needs_registry_rebuild);
    assert!(diff.games_to_refresh.contains(&GameId::GenshinImpact));
    assert!(!diff.games_to_refresh.contains(&GameId::HonkaiStarRail));
}

#[test]
fn kuro_secrets_change_refreshes_wuwa() {
    let old = config_with_wuwa(default_wuwa());
    let new = old.clone();
    let old_secrets = SecretsConfig::default();
    let new_secrets = SecretsConfig { kuro: KuroSecrets { oauth_code: "new_code".to_string() }, ..Default::default() };
    let diff = compute(&old, &new, &old_secrets, &new_secrets);
    assert!(diff.needs_registry_rebuild);
    assert!(diff.games_to_refresh.contains(&GameId::WutheringWaves));
}

#[test]
fn game_added_triggers_rebuild_and_refresh() {
    let old = AppConfig::default();
    let new = config_with_genshin(default_genshin());
    let secrets = SecretsConfig::default();
    let diff = compute(&old, &new, &secrets, &secrets);
    assert!(diff.needs_registry_rebuild);
    assert!(diff.games_to_refresh.contains(&GameId::GenshinImpact));
}

#[test]
fn game_removed_triggers_rebuild_no_refresh() {
    let old = config_with_genshin(default_genshin());
    let new = AppConfig::default();
    let secrets = SecretsConfig::default();
    let diff = compute(&old, &new, &secrets, &secrets);
    assert!(diff.needs_registry_rebuild);
    assert!(diff.games_to_refresh.is_empty());
}

#[test]
fn unchanged_config_with_games_is_empty() {
    let config = config_with_genshin(default_genshin());
    let secrets = SecretsConfig::default();
    let diff = compute(&config, &config, &secrets, &secrets);
    assert!(diff.is_empty());
}

#[test]
fn a_reordered_notification_list_with_the_same_settings_changes_nothing() {
    let on = ResourceNotificationConfig::new(true, Some(30), None, 10);
    let off = ResourceNotificationConfig::new(false, None, Some(100), 0);
    let mut a = default_genshin();
    a.notifications = vec![(GenshinResourceType::Resin, on), (GenshinResourceType::Expeditions, off)];
    let mut b = default_genshin();
    b.notifications = vec![(GenshinResourceType::Expeditions, off), (GenshinResourceType::Resin, on)];
    let secrets = SecretsConfig::default();
    let diff = compute(&config_with_genshin(a), &config_with_genshin(b), &secrets, &secrets);
    assert!(diff.is_empty());
}
