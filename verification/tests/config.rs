use storekeeper::config::{default_log_level, default_notification_cooldown, default_poll_interval, default_true};
use storekeeper::claim_time::ClaimTime;
use storekeeper::client::error::ClientError;
use storekeeper::clients::{daily_reward_games, needs_cached_oauth, plan_game_clients, ClientCredentials};
use storekeeper::command_error::{CommandError, ErrorCode};
use storekeeper::config::{
    default_config_content, default_genshin_resources, default_secrets_content, same_resource_keys, same_settings,
    setting_for, settings_by_key, settings_from_keys, tracked_from_keys, AppConfig, GamesConfig, GeneralConfig,
    GenshinConfig, HoyolabSecrets, KuroSecrets, SecretsConfig, WuwaConfig, DEFAULT_POLL_INTERVAL_SECS,
};
use storekeeper::error::Error;
use storekeeper::game_id::GameId;
use storekeeper::notification::ResourceNotificationConfig;
use storekeeper::region::Region;
use storekeeper::resource_types::{GenshinResourceType, WuwaResourceType};

fn genshin(uid: &str) -> GenshinConfig {
    GenshinConfig {
        enabled: true,
        uid: uid.to_string(),
        region: None,
        tracked_resources: GenshinResourceType::all(),
        auto_claim_daily_rewards: true,
        auto_claim_time: Some(ClaimTime::from_utc8_str("08:30").expect("valid")),
        notifications: Vec::new(),
    }
}

fn wuwa(player_id: &str) -> WuwaConfig {
    WuwaConfig {
        enabled: true,
        player_id: player_id.to_string(),
        region: None,
        tracked_resources: WuwaResourceType::all(),
        notifications: Vec::new(),
    }
}

fn secrets(ltuid: &str, ltoken: &str, oauth: &str) -> SecretsConfig {
    SecretsConfig {
        hoyolab: HoyolabSecrets { ltuid_v2: ltuid.to_string(), ltoken_v2: ltoken.to_string(), ltmid_v2: String::new() },
        kuro: KuroSecrets { oauth_code: oauth.to_string() },
    }
}

#[test]
fn test_unknown_tracked_resource_is_ignored() {
    let raw: Vec<String> = ["resin", "unknown_resource", "expeditions"].iter().map(|s| s.to_string()).collect();
    let kept: Vec<GenshinResourceType> = tracked_from_keys(&raw);
    assert_eq!(kept.len(), 2);
    assert!(kept.contains(&GenshinResourceType::Resin));
    assert!(kept.contains(&GenshinResourceType::Expeditions));
}

#[test]
fn test_unknown_notification_resource_is_ignored() {
    let c = ResourceNotificationConfig::new(true, None, None, 10);
    let raw = vec![("resin".to_string(), c), ("unknown_resource".to_string(), ResourceNotificationConfig::new(true, None, None, 5))];
    let settings: Vec<(GenshinResourceType, ResourceNotificationConfig)> = settings_from_keys(&raw);
    assert_eq!(settings.len(), 1);
    assert_eq!(settings[0], (GenshinResourceType::Resin, c));
}

#[test]
fn defaults_match_the_declared_constants() {
    let g = GeneralConfig::default();
    assert_eq!(g.poll_interval_secs, DEFAULT_POLL_INTERVAL_SECS);
    assert!(g.start_minimized);
    assert_eq!(g.log_level, "info");
    assert!(g.language.is_none());
    assert!(!g.autostart);
    assert_eq!(default_genshin_resources(), GenshinResourceType::all());
    let games = GamesConfig::default();
    for g in GameId::all() {
        assert!(!games.is_enabled(g));
        assert!(!games.auto_claim_enabled(g));
    }
    assert!(default_config_content().starts_with("# Storekeeper Configuration"));
    assert!(default_config_content().contains("[games.wuthering_waves]"));
    assert!(default_config_content().contains("player_id = \"YOUR_PLAYER_ID_HERE\""));
    assert!(default_secrets_content().starts_with("# Storekeeper Secrets Configuration"));
    assert!(default_secrets_content().contains("[kuro]"));
    assert!(default_secrets_content().contains("ltmid_v2 = \"\""));
}

#[test]
fn game_settings_are_read_per_game() {
    let mut games = GamesConfig::default();
    games.genshin_impact = Some(genshin("800000001"));
    assert!(games.is_enabled(GameId::GenshinImpact));
    assert!(games.auto_claim_enabled(GameId::GenshinImpact));
    assert_eq!(games.auto_claim_time(GameId::GenshinImpact).map(|t| t.to_utc8_string()), Some("08:30".to_string()));
    assert_eq!(games.auto_claim_time(GameId::HonkaiStarRail), None);
    assert!(!games.auto_claim_enabled(GameId::WutheringWaves));
    let on = ResourceNotificationConfig::new(true, Some(30), None, 10);
    games.genshin_impact.as_mut().expect("set").notifications = vec![(GenshinResourceType::Resin, on)];
    assert_eq!(games.notification_configs(GameId::GenshinImpact), vec![("resin".to_string(), on)]);
    assert!(games.notification_configs(GameId::ZenlessZoneZero).is_empty());
}

#[test]
fn settings_lists_compare_as_maps() {
    let a = ResourceNotificationConfig::new(true, Some(30), None, 10);
    let b = ResourceNotificationConfig::new(false, None, None, 0);
    let x = vec![(GenshinResourceType::Resin, b), (GenshinResourceType::Resin, a)];
    let y = vec![(GenshinResourceType::Resin, a)];
    assert!(same_settings(&x, &y));
    assert_eq!(setting_for(&x, "resin"), Some(a));
    assert_eq!(setting_for(&x, "expeditions"), None);
    assert_eq!(settings_by_key(&y), vec![("resin".to_string(), a)]);
    assert!(!same_settings(&x, &vec![(GenshinResourceType::Resin, b)]));
    assert!(same_resource_keys(&vec![GenshinResourceType::Resin], &vec![GenshinResourceType::Resin]));
    assert!(!same_resource_keys(&vec![GenshinResourceType::Resin], &vec![GenshinResourceType::Expeditions]));
}

#[test]
fn secrets_accessors() {
    let s = secrets("1", "tok", "");
    assert!(s.hoyolab.is_configured());
    assert_eq!(s.hoyolab.ltuid(), "1");
    assert_eq!(s.hoyolab.ltoken(), "tok");
    assert!(!s.kuro.has_override());
    assert_eq!(s.kuro.oauth_code_override(), None);
    let s = secrets("", "tok", "code");
    assert!(!s.hoyolab.is_configured());
    assert_eq!(s.kuro.oauth_code_override(), Some("code"));
    assert!(!SecretsConfig::default().hoyolab.is_configured());
}

#[test]
fn client_plans_follow_config_and_credentials() {
    let mut config = AppConfig::default();
    config.games.genshin_impact = Some(genshin("800000001"));
    config.games.wuthering_waves = Some(wuwa("500000001"));
    let plans = plan_game_clients(&config, &secrets("1", "tok", ""), Some("cached"));
    assert_eq!(plans.len(), 2);
    assert_eq!(plans[0].game_id, GameId::GenshinImpact);
    assert_eq!(plans[0].region, Region::Asia);
    assert!(matches!(&plans[0].credentials, ClientCredentials::Hoyolab { ltuid, ltoken } if ltuid == "1" && ltoken == "tok"));
    assert_eq!(plans[1].game_id, GameId::WutheringWaves);
    assert_eq!(plans[1].region, Region::America);
    assert!(matches!(&plans[1].credentials, ClientCredentials::Kuro { oauth_code } if oauth_code == "cached"));
    let plans = plan_game_clients(&config, &secrets("", "", "override"), Some("cached"));
    assert_eq!(plans.len(), 1);
    assert!(matches!(&plans[0].credentials, ClientCredentials::Kuro { oauth_code } if oauth_code == "override"));
    assert!(needs_cached_oauth(&config, &secrets("", "", "")));
    assert!(!needs_cached_oauth(&config, &secrets("", "", "override")));
}

#[test]
fn a_uid_without_a_region_gets_no_client() {
    let mut config = AppConfig::default();
    config.games.genshin_impact = Some(genshin("400000001"));
    assert!(plan_game_clients(&config, &secrets("1", "tok", ""), None).is_empty());
    let mut g = genshin("400000001");
    g.region = Some(Region::Europe);
    config.games.genshin_impact = Some(g);
    let plans = plan_game_clients(&config, &secrets("1", "tok", ""), None);
    assert_eq!(plans.len(), 1);
    assert_eq!(plans[0].region, Region::Europe);
}

#[test]
fn daily_reward_clients_need_hoyolab_cookies() {
    let mut config = AppConfig::default();
    config.games.genshin_impact = Some(genshin("800000001"));
    config.games.wuthering_waves = Some(wuwa("500000001"));
    assert_eq!(daily_reward_games(&config, &secrets("1", "tok", "")), vec![GameId::GenshinImpact]);
    assert!(daily_reward_games(&config, &secrets("", "", "")).is_empty());
}

#[test]
fn command_errors_carry_a_code() {
    let e = CommandError::internal("boom");
    assert_eq!(e.code, ErrorCode::Internal);
    assert_eq!(e.to_string(), "boom");
    assert_eq!(CommandError::io("disk").code, ErrorCode::IoError);
    let e = CommandError::from_core(&Error::ConfigNotFound { path: "/x".to_string() });
    assert_eq!(e.code, ErrorCode::ConfigNotFound);
    assert_eq!(e.message, "Configuration file not found: /x");
    assert_eq!(CommandError::from_core(&Error::ConfigReadFailed("io".to_string())).code, ErrorCode::IoError);
    assert_eq!(CommandError::from_core(&Error::InvalidRegion("mars".to_string())).code, ErrorCode::ConfigInvalid);
}

#[test]
fn client_error_messages() {
    assert_eq!(ClientError::api_error(-1, "bad").message(), "API error (code -1): bad");
    assert_eq!(ClientError::api_error(-1, "bad").api_error_code(), Some(-1));
    assert_eq!(ClientError::http_status(404, "nope").api_error_code(), None);
    assert_eq!(ClientError::http_status(404, "nope").message(), "HTTP status 404: nope");
    assert_eq!(ClientError::auth_failed("x").message(), "Authentication failed: x");
    assert_eq!(ClientError::invalid_config("y").message(), "Invalid configuration: y");
}

#[test]
fn core_error_messages() {
    assert_eq!(
        Error::ValidationError { field: "uid".to_string(), constraint: "must be set".to_string() }.message(),
        "Validation error: uid must be set"
    );
    assert_eq!(Error::UnknownUidRegion("1".to_string()).message(), "Could not determine region from UID: 1");
}

#[test]
fn serde_defaults_for_missing_settings() {
    assert_eq!(default_poll_interval(), 300);
    assert!(default_true());
    assert_eq!(default_log_level(), "info");
    assert_eq!(default_notification_cooldown(), 30);
}
