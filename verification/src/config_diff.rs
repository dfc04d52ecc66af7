//! What a saved configuration changes: the least work that applies it.
//!
//! Comparing the old and new configuration and secrets tells which general
//! settings need applying, whether the game clients must be rebuilt, which
//! games' resources must be fetched again, and which games' notification
//! cooldowns must be reset.

use vstd::prelude::*;
use crate::config::{
    game_enabled, keys_of, same_resource_keys, same_settings, settings_map, AppConfig, GenshinConfig,
    HoyolabSecrets, HsrConfig, KuroSecrets, SecretsConfig, WuwaConfig, ZzzConfig,
};
use crate::game_id::{all_games, provider_of, ApiProvider, GameId};
use crate::notification::ResourceNotificationConfig;
use crate::region::Region;
use crate::text::str_eq;

verus! {

/// The fields of a game's settings that decide how its client is built and
/// what it fetches, and its notification settings.
pub trait ClientFields {
    /// Whether the game is enabled.
    spec fn is_enabled(&self) -> bool;

    /// The client identity: enabled, player ID, region and tracked resource
    /// keys.
    spec fn identity(&self) -> (bool, Seq<char>, Option<Region>, Seq<Seq<char>>);

    /// The notification settings, as a map from resource key.
    spec fn notification_settings(&self) -> Map<Seq<char>, ResourceNotificationConfig>;

    /// Whether the game is enabled.
    fn enabled(&self) -> (b: bool)
        ensures
            b == self.is_enabled(),
    ;

    /// Whether two settings of the game build the same client.
    fn same_identity(&self, other: &Self) -> (b: bool)
        ensures
            b == (self.identity() == other.identity()),
    ;

    /// Whether the notification settings differ.
    fn notification_changed(&self, other: &Self) -> (b: bool)
        ensures
            b == (self.notification_settings() != other.notification_settings()),
    ;
}

fn same_region(a: Option<Region>, b: Option<Region>) -> (r: bool)
    ensures
        r == (a == b),
{
    match (a, b) {
        (None, None) => true,
        (Some(x), Some(y)) => x == y,
        _ => false,
    }
}

impl ClientFields for GenshinConfig {
    open spec fn is_enabled(&self) -> bool {
        self.enabled
    }

    open spec fn identity(&self) -> (bool, Seq<char>, Option<Region>, Seq<Seq<char>>) {
        (self.enabled, self.uid@, self.region, keys_of(self.tracked_resources@))
    }

    open spec fn notification_settings(&self) -> Map<Seq<char>, ResourceNotificationConfig> {
        settings_map(self.notifications@)
    }

    fn enabled(&self) -> (b: bool) {
        self.enabled
    }

    fn same_identity(&self, other: &Self) -> (b: bool) {
        self.enabled == other.enabled && str_eq(self.uid.as_str(), other.uid.as_str()) && same_region(
            self.region,
            other.region,
        ) && same_resource_keys(&self.tracked_resources, &other.tracked_resources)
    }

    fn notification_changed(&self, other: &Self) -> (b: bool) {
        !same_settings(&self.notifications, &other.notifications)
    }
}

impl ClientFields for HsrConfig {
    open spec fn is_enabled(&self) -> bool {
        self.enabled
    }

    open spec fn identity(&self) -> (bool, Seq<char>, Option<Region>, Seq<Seq<char>>) {
        (self.enabled, self.uid@, self.region, keys_of(self.tracked_resources@))
    }

    open spec fn notification_settings(&self) -> Map<Seq<char>, ResourceNotificationConfig> {
        settings_map(self.notifications@)
    }

    fn enabled(&self) -> (b: bool) {
        self.enabled
    }

    fn same_identity(&self, other: &Self) -> (b: bool) {
        self.enabled == other.enabled && str_eq(self.uid.as_str(), other.uid.as_str()) && same_region(
            self.region,
            other.region,
        ) && same_resource_keys(&self.tracked_resources, &other.tracked_resources)
    }

    fn notification_changed(&self, other: &Self) -> (b: bool) {
        !same_settings(&self.notifications, &other.notifications)
    }
}

impl ClientFields for ZzzConfig {
    open spec fn is_enabled(&self) -> bool {
        self.enabled
    }

    open spec fn identity(&self) -> (bool, Seq<char>, Option<Region>, Seq<Seq<char>>) {
        (self.enabled, self.uid@, self.region, keys_of(self.tracked_resources@))
    }

    open spec fn notification_settings(&self) -> Map<Seq<char>, ResourceNotificationConfig> {
        settings_map(self.notifications@)
    }

    fn enabled(&self) -> (b: bool) {
        self.enabled
    }

    fn same_identity(&self, other: &Self) -> (b: bool) {
        self.enabled == other.enabled && str_eq(self.uid.as_str(), other.uid.as_str()) && same_region(
            self.region,
            other.region,
        ) && same_resource_keys(&self.tracked_resources, &other.tracked_resources)
    }

    fn notification_changed(&self, other: &Self) -> (b: bool) {
        !same_settings(&self.notifications, &other.notifications)
    }
}

impl ClientFields for WuwaConfig {
    open spec fn is_enabled(&self) -> bool {
        self.enabled
    }

    open spec fn identity(&self) -> (bool, Seq<char>, Option<Region>, Seq<Seq<char>>) {
        (self.enabled, self.player_id@, self.region, keys_of(self.tracked_resources@))
    }

    open spec fn notification_settings(&self) -> Map<Seq<char>, ResourceNotificationConfig> {
        settings_map(self.notifications@)
    }

    fn enabled(&self) -> (b: bool) {
        self.enabled
    }

    fn same_identity(&self, other: &Self) -> (b: bool) {
        self.enabled == other.enabled && str_eq(self.player_id.as_str(), other.player_id.as_str())
            && same_region(self.region, other.region) && same_resource_keys(
            &self.tracked_resources,
            &other.tracked_resources,
        )
    }

    fn notification_changed(&self, other: &Self) -> (b: bool) {
        !same_settings(&self.notifications, &other.notifications)
    }
}

/// What changed for a single game's settings.
#[derive(Debug, Clone, Copy, PartialEq, Eq, Structural)]
pub struct GameConfigChange {
    /// Whether the game clients must be rebuilt.
    pub needs_registry_rebuild: bool,
    /// The game, when its resources must be fetched again.
    pub game_to_refresh: Option<GameId>,
    /// The game, when its notification cooldowns must be reset.
    pub game_to_reset_notifications: Option<GameId>,
}

/// What changed for a game: adding settings rebuilds the clients (and
/// fetches the game when it is enabled); removing them rebuilds; otherwise a
/// changed client identity rebuilds (and fetches an enabled game), and
/// changed notification settings reset the game's cooldowns.
pub open spec fn game_change<T: ClientFields>(game_id: GameId, old: Option<T>, new: Option<T>) -> GameConfigChange {
    match (old, new) {
        (None, None) => GameConfigChange {
            needs_registry_rebuild: false,
            game_to_refresh: None,
            game_to_reset_notifications: None,
        },
        (None, Some(cfg)) => GameConfigChange {
            needs_registry_rebuild: true,
            game_to_refresh: if cfg.is_enabled() { Some(game_id) } else { None },
            game_to_reset_notifications: None,
        },
        (Some(_), None) => GameConfigChange {
            needs_registry_rebuild: true,
            game_to_refresh: None,
            game_to_reset_notifications: None,
        },
        (Some(o), Some(n)) => {
            let changed = o.identity() != n.identity();
            GameConfigChange {
                needs_registry_rebuild: changed,
                game_to_refresh: if changed && n.is_enabled() { Some(game_id) } else { None },
                game_to_reset_notifications: if o.notification_settings() != n.notification_settings() {
                    Some(game_id)
                } else {
                    None
                },
            }
        },
    }
}

/// Compares a single game's settings and returns what changed.
pub fn check_game_config<T: ClientFields>(game_id: GameId, old: Option<&T>, new: Option<&T>) -> (c:
    GameConfigChange)
    ensures
        c == game_change(
            game_id,
            match old {
                Some(o) => Some(*o),
                None => None,
            },
            match new {
                Some(n) => Some(*n),
                None => None,
            },
        ),
{
    let none = GameConfigChange {
        needs_registry_rebuild: false,
        game_to_refresh: None,
        game_to_reset_notifications: None,
    };
    match (old, new) {
        (None, None) => none,
        (None, Some(cfg)) => GameConfigChange {
            needs_registry_rebuild: true,
            game_to_refresh: if cfg.enabled() { Some(game_id) } else { None },
            game_to_reset_notifications: None,
        },
        (Some(_), None) => GameConfigChange {
            needs_registry_rebuild: true,
            game_to_refresh: None,
            game_to_reset_notifications: None,
        },
        (Some(old_cfg), Some(new_cfg)) => {
            let identity_changed = !old_cfg.same_identity(new_cfg);
            GameConfigChange {
                needs_registry_rebuild: identity_changed,
                game_to_refresh: if identity_changed && new_cfg.enabled() {
                    Some(game_id)
                } else {
                    None
                },
                game_to_reset_notifications: if old_cfg.notification_changed(new_cfg) {
                    Some(game_id)
                } else {
                    None
                },
            }
        },
    }
}

/// General settings that are applied on their own.
#[derive(Debug, Clone, Copy, PartialEq, Eq, Structural)]
pub struct GeneralDiff {
    /// The language changed: the tray must be rebuilt.
    pub locale_changed: bool,
    /// Autostart changed: the OS setting must be synchronized.
    pub autostart_changed: bool,
    /// The log level changed: the log filter must be swapped.
    pub log_level_changed: bool,
}

impl GeneralDiff {
    /// Whether no general setting changed.
    pub fn is_empty(&self) -> (b: bool)
        ensures
            b == (!self.locale_changed && !self.autostart_changed && !self.log_level_changed),
    {
        !self.locale_changed && !self.autostart_changed && !self.log_level_changed
    }
}

/// The configuration changes that decide what applying them takes.
#[derive(Debug, Clone)]
pub struct ConfigDiff {
    /// General settings to apply.
    pub general: GeneralDiff,
    /// Whether the game client registries must be rebuilt.
    pub needs_registry_rebuild: bool,
    /// Games whose resources must be fetched again, in the fixed game order.
    pub games_to_refresh: Vec<GameId>,
    /// Games whose notification cooldowns must be reset, in the fixed game
    /// order.
    pub games_to_reset_notifications: Vec<GameId>,
}

impl ConfigDiff {
    /// Whether nothing changed (no work needed).
    pub fn is_empty(&self) -> (b: bool)
        ensures
            b == (!self.general.locale_changed && !self.general.autostart_changed
                && !self.general.log_level_changed && !self.needs_registry_rebuild
                && self.games_to_refresh@.len() == 0 && self.games_to_reset_notifications@.len() == 0),
    {
        self.general.is_empty() && !self.needs_registry_rebuild && self.games_to_refresh.len() == 0
            && self.games_to_reset_notifications.len() == 0
    }
}

/// An optional string as an optional character sequence.
pub open spec fn opt_text(o: Option<String>) -> Option<Seq<char>> {
    match o {
        Some(s) => Some(s@),
        None => None,
    }
}

/// The HoYoLab credentials as text.
pub open spec fn hoyolab_view(s: HoyolabSecrets) -> (Seq<char>, Seq<char>, Seq<char>) {
    (s.ltuid_v2@, s.ltoken_v2@, s.ltmid_v2@)
}

/// The change computed for each game between two configurations.
pub open spec fn change_of(old: AppConfig, new: AppConfig, game_id: GameId) -> GameConfigChange {
    match game_id {
        GameId::GenshinImpact => game_change(game_id, old.games.genshin_impact, new.games.genshin_impact),
        GameId::HonkaiStarRail => game_change(
            game_id,
            old.games.honkai_star_rail,
            new.games.honkai_star_rail,
        ),
        GameId::ZenlessZoneZero => game_change(
            game_id,
            old.games.zenless_zone_zero,
            new.games.zenless_zone_zero,
        ),
        GameId::WutheringWaves => game_change(
            game_id,
            old.games.wuthering_waves,
            new.games.wuthering_waves,
        ),
    }
}

/// Whether the credentials of a game's provider changed.
pub open spec fn provider_secrets_changed(old: SecretsConfig, new: SecretsConfig, game_id: GameId) -> bool {
    match provider_of(game_id) {
        ApiProvider::HoYoLab => hoyolab_view(old.hoyolab) != hoyolab_view(new.hoyolab),
        ApiProvider::Kuro => old.kuro.oauth_code@ != new.kuro.oauth_code@,
    }
}

/// A game is fetched again when its change asks for it, or when its
/// provider's credentials changed and it is enabled.
pub open spec fn refreshes(
    old: AppConfig,
    new: AppConfig,
    old_secrets: SecretsConfig,
    new_secrets: SecretsConfig,
    game_id: GameId,
) -> bool {
    change_of(old, new, game_id).game_to_refresh is Some || (provider_secrets_changed(
        old_secrets,
        new_secrets,
        game_id,
    ) && game_enabled(new.games, game_id))
}

/// The games fetched again, as a filter.
pub open spec fn refresh_filter(
    old: AppConfig,
    new: AppConfig,
    old_secrets: SecretsConfig,
    new_secrets: SecretsConfig,
) -> spec_fn(GameId) -> bool {
    |g: GameId| refreshes(old, new, old_secrets, new_secrets, g)
}

/// The games whose cooldowns are reset, as a filter.
pub open spec fn reset_filter(old: AppConfig, new: AppConfig) -> spec_fn(GameId) -> bool {
    |g: GameId| change_of(old, new, g).game_to_reset_notifications is Some
}

/// The clients are rebuilt when any game's change asks for it or any
/// provider's credentials changed.
pub open spec fn rebuilds(
    old: AppConfig,
    new: AppConfig,
    old_secrets: SecretsConfig,
    new_secrets: SecretsConfig,
) -> bool {
    (exists|g: GameId| #[trigger] change_of(old, new, g).needs_registry_rebuild) || hoyolab_view(
        old_secrets.hoyolab,
    ) != hoyolab_view(new_secrets.hoyolab) || old_secrets.kuro.oauth_code@ != new_secrets.kuro.oauth_code@
}

fn same_text_option(a: &Option<String>, b: &Option<String>) -> (r: bool)
    ensures
        r == (opt_text(*a) == opt_text(*b)),
{
    match (a, b) {
        (None, None) => true,
        (Some(x), Some(y)) => str_eq(x.as_str(), y.as_str()),
        _ => false,
    }
}

fn same_hoyolab(a: &HoyolabSecrets, b: &HoyolabSecrets) -> (r: bool)
    ensures
        r == (hoyolab_view(*a) == hoyolab_view(*b)),
{
    str_eq(a.ltuid_v2.as_str(), b.ltuid_v2.as_str()) && str_eq(a.ltoken_v2.as_str(), b.ltoken_v2.as_str())
        && str_eq(a.ltmid_v2.as_str(), b.ltmid_v2.as_str())
}

fn same_kuro(a: &KuroSecrets, b: &KuroSecrets) -> (r: bool)
    ensures
        r == (a.oauth_code@ == b.oauth_code@),
{
    str_eq(a.oauth_code.as_str(), b.oauth_code.as_str())
}

fn game_change_of(old: &AppConfig, new: &AppConfig, game_id: GameId) -> (c: GameConfigChange)
    ensures
        c == change_of(*old, *new, game_id),
{
    match game_id {
        GameId::GenshinImpact => check_game_config(
            game_id,
            old.games.genshin_impact.as_ref(),
            new.games.genshin_impact.as_ref(),
        ),
        GameId::HonkaiStarRail => check_game_config(
            game_id,
            old.games.honkai_star_rail.as_ref(),
            new.games.honkai_star_rail.as_ref(),
        ),
        GameId::ZenlessZoneZero => check_game_config(
            game_id,
            old.games.zenless_zone_zero.as_ref(),
            new.games.zenless_zone_zero.as_ref(),
        ),
        GameId::WutheringWaves => check_game_config(
            game_id,
            old.games.wuthering_waves.as_ref(),
            new.games.wuthering_waves.as_ref(),
        ),
    }
}

/// Computes what changed between the old and new configuration and secrets.
pub fn compute(
    old_config: &AppConfig,
    new_config: &AppConfig,
    old_secrets: &SecretsConfig,
    new_secrets: &SecretsConfig,
) -> (d: ConfigDiff)
    ensures
        d.general.locale_changed == (opt_text(old_config.general.language) != opt_text(
            new_config.general.language,
        )),
        d.general.autostart_changed == (old_config.general.autostart != new_config.general.autostart),
        d.general.log_level_changed == (old_config.general.log_level@ != new_config.general.log_level@),
        d.needs_registry_rebuild == rebuilds(*old_config, *new_config, *old_secrets, *new_secrets),
        d.games_to_refresh@ == all_games().filter(
            refresh_filter(*old_config, *new_config, *old_secrets, *new_secrets),
        ),
        d.games_to_reset_notifications@ == all_games().filter(
            reset_filter(*old_config, *new_config),
        ),
{
    let general = GeneralDiff {
        locale_changed: !same_text_option(&old_config.general.language, &new_config.general.language),
        autostart_changed: old_config.general.autostart != new_config.general.autostart,
        log_level_changed: !str_eq(
            old_config.general.log_level.as_str(),
            new_config.general.log_level.as_str(),
        ),
    };
    let hoyolab_changed = !same_hoyolab(&old_secrets.hoyolab, &new_secrets.hoyolab);
    let kuro_changed = !same_kuro(&old_secrets.kuro, &new_secrets.kuro);
    let games = GameId::all();
    let mut needs_registry_rebuild = hoyolab_changed || kuro_changed;
    let mut games_to_refresh: Vec<GameId> = Vec::new();
    let mut games_to_reset_notifications: Vec<GameId> = Vec::new();
    proof {
        reveal(Seq::filter);
        assert(all_games().take(0) =~= Seq::<GameId>::empty());
    }
    let mut i: usize = 0;
    while i < games.len()
        invariant
            games@ == all_games(),
            0 <= i <= 4,
            hoyolab_changed == (hoyolab_view(old_secrets.hoyolab) != hoyolab_view(new_secrets.hoyolab)),
            kuro_changed == (old_secrets.kuro.oauth_code@ != new_secrets.kuro.oauth_code@),
            needs_registry_rebuild == (hoyolab_changed || kuro_changed || exists|j: int| 0 <= j < i
                && #[trigger] change_of(*old_config, *new_config, all_games()[j]).needs_registry_rebuild),
            games_to_refresh@ == all_games().take(i as int).filter(
                refresh_filter(*old_config, *new_config, *old_secrets, *new_secrets),
            ),
            games_to_reset_notifications@ == all_games().take(i as int).filter(
                reset_filter(*old_config, *new_config),
            ),
        decreases 4 - i,
    {
        let g = games[i];
        let change = game_change_of(old_config, new_config, g);
        if change.needs_registry_rebuild {
            needs_registry_rebuild = true;
        }
        let provider_changed = match g.api_provider() {
            ApiProvider::HoYoLab => hoyolab_changed,
            ApiProvider::Kuro => kuro_changed,
        };
        let refresh = change.game_to_refresh.is_some() || (provider_changed && new_config.games.is_enabled(g));
        assert(refresh == refresh_filter(*old_config, *new_config, *old_secrets, *new_secrets)(g));
        if refresh {
            games_to_refresh.push(g);
        }
        if change.game_to_reset_notifications.is_some() {
            games_to_reset_notifications.push(g);
        }
        proof {
            let t = all_games().take(i + 1);
            let p = refresh_filter(*old_config, *new_config, *old_secrets, *new_secrets);
            let q = reset_filter(*old_config, *new_config);
            reveal(Seq::filter);
            assert(t.drop_last() =~= all_games().take(i as int));
            assert(t.last() == g);
            assert(q(g) == change.game_to_reset_notifications is Some);
            assert(t.filter(p) == (if p(t.last()) {
                t.drop_last().filter(p).push(t.last())
            } else {
                t.drop_last().filter(p)
            }));
            assert(t.filter(q) == (if q(t.last()) {
                t.drop_last().filter(q).push(t.last())
            } else {
                t.drop_last().filter(q)
            }));
            assert(games_to_refresh@ =~= t.filter(p));
            assert(games_to_reset_notifications@ =~= t.filter(q));
        }
        i += 1;
    }
    proof {
        assert(all_games().take(4) =~= all_games());
        if exists|g: GameId| #[trigger] change_of(*old_config, *new_config, g).needs_registry_rebuild {
            let g = choose|g: GameId| #[trigger] change_of(*old_config, *new_config, g).needs_registry_rebuild;
            crate::game_id::lemma_all_games_complete(g);
            let j = choose|j: int| 0 <= j < 4 && all_games()[j] == g;
            assert(change_of(*old_config, *new_config, all_games()[j]).needs_registry_rebuild);
        }
    }
    ConfigDiff { general, needs_registry_rebuild, games_to_refresh, games_to_reset_notifications }
}

/// Saving an unchanged configuration and unchanged secrets asks for no work:
/// no rebuild, no game fetched again, no cooldown reset.
pub proof fn lemma_unchanged_config_needs_nothing(config: AppConfig, secrets: SecretsConfig)
    ensures
        !rebuilds(config, config, secrets, secrets),
        all_games().filter(refresh_filter(config, config, secrets, secrets)) == Seq::<GameId>::empty(),
        all_games().filter(reset_filter(config, config)) == Seq::<GameId>::empty(),
{
    let p = refresh_filter(config, config, secrets, secrets);
    let q = reset_filter(config, config);
    assert forall|g: GameId| !#[trigger] change_of(config, config, g).needs_registry_rebuild && !p(g) && !q(g) by {
    }
    reveal_with_fuel(Seq::filter, 5);
    let s = all_games();
    assert(s.drop_last().drop_last().drop_last().drop_last() =~= Seq::<GameId>::empty());
    assert(s.filter(p) =~= Seq::<GameId>::empty()) by {
        assert(!p(GameId::GenshinImpact) && !p(GameId::HonkaiStarRail) && !p(GameId::ZenlessZoneZero)
            && !p(GameId::WutheringWaves));
    }
    assert(s.filter(q) =~= Seq::<GameId>::empty()) by {
        assert(!q(GameId::GenshinImpact) && !q(GameId::HonkaiStarRail) && !q(GameId::ZenlessZoneZero)
            && !q(GameId::WutheringWaves));
    }
}

/// Changing Genshin Impact's client settings (enabled, UID, region or tracked
/// resources) rebuilds the game clients, and fetches the game again when it
/// is enabled afterwards.
pub proof fn lemma_genshin_client_change_rebuilds(
    old: AppConfig,
    new: AppConfig,
    old_secrets: SecretsConfig,
    new_secrets: SecretsConfig,
    a: GenshinConfig,
    b: GenshinConfig,
)
    requires
        old.games.genshin_impact == Some(a),
        new.games.genshin_impact == Some(b),
        a.enabled != b.enabled || a.uid@ != b.uid@ || a.region != b.region
            || keys_of(a.tracked_resources@) != keys_of(b.tracked_resources@),
    ensures
        rebuilds(old, new, old_secrets, new_secrets),
        b.enabled ==> all_games().filter(refresh_filter(old, new, old_secrets, new_secrets)).contains(
            GameId::GenshinImpact,
        ),
{
    assert(change_of(old, new, GameId::GenshinImpact).needs_registry_rebuild);
    let p = refresh_filter(old, new, old_secrets, new_secrets);
    if b.enabled {
        assert(p(all_games()[0]));
        all_games().lemma_filter_contains(p, 0);
    }
}

/// Changing Honkai: Star Rail's client settings (enabled, UID, region or tracked
/// resources) rebuilds the game clients, and fetches the game again when it
/// is enabled afterwards.
pub proof fn lemma_hsr_client_change_rebuilds(
    old: AppConfig,
    new: AppConfig,
    old_secrets: SecretsConfig,
    new_secrets: SecretsConfig,
    a: HsrConfig,
    b: HsrConfig,
)
    requires
        old.games.honkai_star_rail == Some(a),
        new.games.honkai_star_rail == Some(b),
        a.enabled != b.enabled || a.uid@ != b.uid@ || a.region != b.region
            || keys_of(a.tracked_resources@) != keys_of(b.tracked_resources@),
    ensures
        rebuilds(old, new, old_secrets, new_secrets),
        b.enabled ==> all_games().filter(refresh_filter(old, new, old_secrets, new_secrets)).contains(
            GameId::HonkaiStarRail,
        ),
{
    assert(change_of(old, new, GameId::HonkaiStarRail).needs_registry_rebuild);
    let p = refresh_filter(old, new, old_secrets, new_secrets);
    if b.enabled {
        assert(p(all_games()[1]));
        all_games().lemma_filter_contains(p, 1);
    }
}

/// Changing Zenless Zone Zero's client settings (enabled, UID, region or tracked
/// resources) rebuilds the game clients, and fetches the game again when it
/// is enabled afterwards.
pub proof fn lemma_zzz_client_change_rebuilds(
    old: AppConfig,
    new: AppConfig,
    old_secrets: SecretsConfig,
    new_secrets: SecretsConfig,
    a: ZzzConfig,
    b: ZzzConfig,
)
    requires
        old.games.zenless_zone_zero == Some(a),
        new.games.zenless_zone_zero == Some(b),
        a.enabled != b.enabled || a.uid@ != b.uid@ || a.region != b.region
            || keys_of(a.tracked_resources@) != keys_of(b.tracked_resources@),
    ensures
        rebuilds(old, new, old_secrets, new_secrets),
        b.enabled ==> all_games().filter(refresh_filter(old, new, old_secrets, new_secrets)).contains(
            GameId::ZenlessZoneZero,
        ),
{
    assert(change_of(old, new, GameId::ZenlessZoneZero).needs_registry_rebuild);
    let p = refresh_filter(old, new, old_secrets, new_secrets);
    if b.enabled {
        assert(p(all_games()[2]));
        all_games().lemma_filter_contains(p, 2);
    }
}

/// Changing Wuthering Waves's client settings (enabled, player ID, region or tracked
/// resources) rebuilds the game clients, and fetches the game again when it
/// is enabled afterwards.
pub proof fn lemma_wuwa_client_change_rebuilds(
    old: AppConfig,
    new: AppConfig,
    old_secrets: SecretsConfig,
    new_secrets: SecretsConfig,
    a: WuwaConfig,
    b: WuwaConfig,
)
    requires
        old.games.wuthering_waves == Some(a),
        new.games.wuthering_waves == Some(b),
        a.enabled != b.enabled || a.player_id@ != b.player_id@ || a.region != b.region
            || keys_of(a.tracked_resources@) != keys_of(b.tracked_resources@),
    ensures
        rebuilds(old, new, old_secrets, new_secrets),
        b.enabled ==> all_games().filter(refresh_filter(old, new, old_secrets, new_secrets)).contains(
            GameId::WutheringWaves,
        ),
{
    assert(change_of(old, new, GameId::WutheringWaves).needs_registry_rebuild);
    let p = refresh_filter(old, new, old_secrets, new_secrets);
    if b.enabled {
        assert(p(all_games()[3]));
        all_games().lemma_filter_contains(p, 3);
    }
}


/// A game whose client settings (enabled, player ID, region and tracked
/// resources) are the same before and after never asks for a rebuild or a
/// fetch of its own.
pub proof fn lemma_same_client_settings_keep_the_client(old: AppConfig, new: AppConfig)
    ensures
        ({
            let (o, n) = (old.games.genshin_impact, new.games.genshin_impact);
            o is Some && n is Some && o->0.enabled == n->0.enabled && o->0.uid@ == n->0.uid@
                && o->0.region == n->0.region
                && keys_of(o->0.tracked_resources@) == keys_of(n->0.tracked_resources@)
        }) ==> !change_of(old, new, GameId::GenshinImpact).needs_registry_rebuild
            && change_of(old, new, GameId::GenshinImpact).game_to_refresh is None,
        ({
            let (o, n) = (old.games.honkai_star_rail, new.games.honkai_star_rail);
            o is Some && n is Some && o->0.enabled == n->0.enabled && o->0.uid@ == n->0.uid@
                && o->0.region == n->0.region
                && keys_of(o->0.tracked_resources@) == keys_of(n->0.tracked_resources@)
        }) ==> !change_of(old, new, GameId::HonkaiStarRail).needs_registry_rebuild
            && change_of(old, new, GameId::HonkaiStarRail).game_to_refresh is None,
        ({
            let (o, n) = (old.games.zenless_zone_zero, new.games.zenless_zone_zero);
            o is Some && n is Some && o->0.enabled == n->0.enabled && o->0.uid@ == n->0.uid@
                && o->0.region == n->0.region
                && keys_of(o->0.tracked_resources@) == keys_of(n->0.tracked_resources@)
        }) ==> !change_of(old, new, GameId::ZenlessZoneZero).needs_registry_rebuild
            && change_of(old, new, GameId::ZenlessZoneZero).game_to_refresh is None,
        ({
            let (o, n) = (old.games.wuthering_waves, new.games.wuthering_waves);
            o is Some && n is Some && o->0.enabled == n->0.enabled && o->0.player_id@ == n->0.player_id@
                && o->0.region == n->0.region
                && keys_of(o->0.tracked_resources@) == keys_of(n->0.tracked_resources@)
        }) ==> !change_of(old, new, GameId::WutheringWaves).needs_registry_rebuild
            && change_of(old, new, GameId::WutheringWaves).game_to_refresh is None,
{
}

} // verus!
