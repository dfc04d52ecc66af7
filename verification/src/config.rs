//! Configuration model: general settings, per-game settings and secrets.
//!
//! Reading and writing the TOML files happens in the application; this
//! module holds what the files mean. A game's notification settings are an
//! ordered list of (resource, settings) pairs read as a map in which a later
//! entry for the same resource replaces an earlier one.

use vstd::prelude::*;
use crate::claim_time::ClaimTime;
use crate::game_id::GameId;
use crate::notification::ResourceNotificationConfig;
use crate::region::Region;
use crate::resource_types::{
    GenshinResourceType, HsrResourceType, ResourceKind, WuwaResourceType, ZzzResourceType,
};
use crate::text::str_eq;

verus! {

/// Default polling interval in seconds.
pub const DEFAULT_POLL_INTERVAL_SECS: u64 = 300;

/// Default minutes between repeated notifications.
pub const DEFAULT_NOTIFICATION_COOLDOWN_MINUTES: u32 = 30;

/// The polling interval used when the configuration names none.
pub fn default_poll_interval() -> (n: u64)
    ensures
        n == DEFAULT_POLL_INTERVAL_SECS,
{
    DEFAULT_POLL_INTERVAL_SECS
}

/// The value of a switch the configuration leaves out (games and
/// notifications are on unless turned off).
pub fn default_true() -> (b: bool)
    ensures
        b,
{
    true
}

/// The log level used when the configuration names none.
pub fn default_log_level() -> (s: String)
    ensures
        s@ == "info"@,
{
    "info".to_owned()
}

/// The minutes between repeated notifications when a setting names none.
pub fn default_notification_cooldown() -> (n: u32)
    ensures
        n == DEFAULT_NOTIFICATION_COOLDOWN_MINUTES,
{
    DEFAULT_NOTIFICATION_COOLDOWN_MINUTES
}

/// General application settings.
#[derive(Debug, Clone)]
pub struct GeneralConfig {
    /// Polling interval in seconds.
    pub poll_interval_secs: u64,
    /// Start the app minimized to the system tray.
    pub start_minimized: bool,
    /// Log level: error, warn, info, debug, trace.
    pub log_level: String,
    /// UI language override; the system locale when unset.
    pub language: Option<String>,
    /// Start the app when the system boots.
    pub autostart: bool,
}

impl Default for GeneralConfig {
    fn default() -> (c: Self)
        ensures
            c.poll_interval_secs == DEFAULT_POLL_INTERVAL_SECS,
            c.start_minimized,
            c.log_level@ == "info"@,
            c.language is None,
            !c.autostart,
    {
        GeneralConfig {
            poll_interval_secs: DEFAULT_POLL_INTERVAL_SECS,
            start_minimized: true,
            log_level: "info".to_owned(),
            language: None,
            autostart: false,
        }
    }
}

/// Genshin Impact settings.
#[derive(Debug, Clone)]
pub struct GenshinConfig {
    /// Whether the game is tracked.
    pub enabled: bool,
    /// The player's UID.
    pub uid: String,
    /// Server region; detected from the UID when unset.
    pub region: Option<Region>,
    /// Resources to track.
    pub tracked_resources: Vec<GenshinResourceType>,
    /// Claim the daily reward automatically.
    pub auto_claim_daily_rewards: bool,
    /// When to claim (midnight UTC+8 when unset).
    pub auto_claim_time: Option<ClaimTime>,
    /// Per-resource notification settings.
    pub notifications: Vec<(GenshinResourceType, ResourceNotificationConfig)>,
}

/// Honkai: Star Rail settings.
#[derive(Debug, Clone)]
pub struct HsrConfig {
    /// Whether the game is tracked.
    pub enabled: bool,
    /// The player's UID.
    pub uid: String,
    /// Server region; detected from the UID when unset.
    pub region: Option<Region>,
    /// Resources to track.
    pub tracked_resources: Vec<HsrResourceType>,
    /// Claim the daily reward automatically.
    pub auto_claim_daily_rewards: bool,
    /// When to claim (midnight UTC+8 when unset).
    pub auto_claim_time: Option<ClaimTime>,
    /// Per-resource notification settings.
    pub notifications: Vec<(HsrResourceType, ResourceNotificationConfig)>,
}

/// Zenless Zone Zero settings.
#[derive(Debug, Clone)]
pub struct ZzzConfig {
    /// Whether the game is tracked.
    pub enabled: bool,
    /// The player's UID.
    pub uid: String,
    /// Server region; detected from the UID when unset.
    pub region: Option<Region>,
    /// Resources to track.
    pub tracked_resources: Vec<ZzzResourceType>,
    /// Claim the daily reward automatically.
    pub auto_claim_daily_rewards: bool,
    /// When to claim (midnight UTC+8 when unset).
    pub auto_claim_time: Option<ClaimTime>,
    /// Per-resource notification settings.
    pub notifications: Vec<(ZzzResourceType, ResourceNotificationConfig)>,
}

/// Wuthering Waves settings.
#[derive(Debug, Clone)]
pub struct WuwaConfig {
    /// Whether the game is tracked.
    pub enabled: bool,
    /// The player's ID.
    pub player_id: String,
    /// Server region; detected from the player ID when unset.
    pub region: Option<Region>,
    /// Resources to track.
    pub tracked_resources: Vec<WuwaResourceType>,
    /// Per-resource notification settings.
    pub notifications: Vec<(WuwaResourceType, ResourceNotificationConfig)>,
}

/// Per-game settings; a game without settings is not tracked.
#[derive(Debug, Clone)]
pub struct GamesConfig {
    /// Genshin Impact settings.
    pub genshin_impact: Option<GenshinConfig>,
    /// Honkai: Star Rail settings.
    pub honkai_star_rail: Option<HsrConfig>,
    /// Zenless Zone Zero settings.
    pub zenless_zone_zero: Option<ZzzConfig>,
    /// Wuthering Waves settings.
    pub wuthering_waves: Option<WuwaConfig>,
}

impl Default for GamesConfig {
    fn default() -> (c: Self)
        ensures
            c.genshin_impact is None,
            c.honkai_star_rail is None,
            c.zenless_zone_zero is None,
            c.wuthering_waves is None,
    {
        GamesConfig {
            genshin_impact: None,
            honkai_star_rail: None,
            zenless_zone_zero: None,
            wuthering_waves: None,
        }
    }
}

/// The whole application configuration.
#[derive(Debug, Clone)]
pub struct AppConfig {
    /// General settings.
    pub general: GeneralConfig,
    /// Per-game settings.
    pub games: GamesConfig,
}

impl Default for AppConfig {
    fn default() -> (c: Self)
        ensures
            c.general.poll_interval_secs == DEFAULT_POLL_INTERVAL_SECS,
            c.general.start_minimized,
            c.general.log_level@ == "info"@,
            c.general.language is None,
            !c.general.autostart,
            c.games.genshin_impact is None,
            c.games.honkai_star_rail is None,
            c.games.zenless_zone_zero is None,
            c.games.wuthering_waves is None,
    {
        AppConfig { general: GeneralConfig::default(), games: GamesConfig::default() }
    }
}

/// The keys of a list of resource types.
pub open spec fn keys_of<R: ResourceKind>(s: Seq<R>) -> Seq<Seq<char>> {
    s.map_values(|r: R| r.kind_key())
}

/// Notification settings read as a map from resource key to settings, a
/// later entry replacing an earlier one.
pub open spec fn settings_map<R: ResourceKind>(s: Seq<(R, ResourceNotificationConfig)>) -> Map<
    Seq<char>,
    ResourceNotificationConfig,
>
    decreases s.len(),
{
    if s.len() == 0 {
        Map::empty()
    } else {
        settings_map(s.drop_last()).insert(s.last().0.kind_key(), s.last().1)
    }
}

/// The value of a map at a key, if any.
pub open spec fn map_get<K, V>(m: Map<K, V>, k: K) -> Option<V> {
    if m.dom().contains(k) {
        Some(m[k])
    } else {
        None
    }
}

/// The last entry for a key decides its settings.
proof fn lemma_settings_last<R: ResourceKind>(
    s: Seq<(R, ResourceNotificationConfig)>,
    k: Seq<char>,
    i: int,
)
    requires
        0 <= i < s.len(),
        s[i].0.kind_key() == k,
        forall|j: int| i < j < s.len() ==> #[trigger] s[j].0.kind_key() != k,
    ensures
        map_get(settings_map(s), k) == Some(s[i].1),
    decreases s.len(),
{
    if i < s.len() - 1 {
        assert(s.last() == s[s.len() - 1]);
        assert forall|j: int| i < j < s.drop_last().len() implies #[trigger] s.drop_last()[j].0.kind_key()
            != k by {
            assert(s.drop_last()[j] == s[j]);
        }
        assert(s.drop_last()[i] == s[i]);
        lemma_settings_last(s.drop_last(), k, i);
    }
}

/// A key with no entry has no settings.
proof fn lemma_settings_absent<R: ResourceKind>(s: Seq<(R, ResourceNotificationConfig)>, k: Seq<char>)
    requires
        forall|j: int| 0 <= j < s.len() ==> #[trigger] s[j].0.kind_key() != k,
    ensures
        map_get(settings_map(s), k) is None,
    decreases s.len(),
{
    if s.len() > 0 {
        assert(s.last() == s[s.len() - 1]);
        assert forall|j: int| 0 <= j < s.drop_last().len() implies #[trigger] s.drop_last()[j].0.kind_key()
            != k by {
            assert(s.drop_last()[j] == s[j]);
        }
        lemma_settings_absent(s.drop_last(), k);
    }
}

/// Every key with settings has an entry.
proof fn lemma_settings_dom<R: ResourceKind>(s: Seq<(R, ResourceNotificationConfig)>, k: Seq<char>)
    requires
        settings_map(s).dom().contains(k),
    ensures
        exists|j: int| 0 <= j < s.len() && #[trigger] s[j].0.kind_key() == k,
    decreases s.len(),
{
    if s.last().0.kind_key() != k {
        lemma_settings_dom(s.drop_last(), k);
        let j = choose|j: int| 0 <= j < s.drop_last().len() && #[trigger] s.drop_last()[j].0.kind_key() == k;
        assert(s[j] == s.drop_last()[j]);
    } else {
        assert(s[s.len() - 1] == s.last());
    }
}

/// The settings configured for a resource key, if any.
pub fn setting_for<R: ResourceKind>(s: &Vec<(R, ResourceNotificationConfig)>, key: &str) -> (r: Option<
    ResourceNotificationConfig,
>)
    ensures
        r == map_get(settings_map(s@), key@),
{
    let mut i: usize = s.len();
    while i > 0
        invariant
            0 <= i <= s@.len(),
            forall|j: int| i <= j < s@.len() ==> #[trigger] s@[j].0.kind_key() != key@,
        decreases i,
    {
        let (r, c) = s[i - 1];
        if str_eq(r.key(), key) {
            proof {
                lemma_settings_last(s@, key@, i - 1);
            }
            return Some(c);
        }
        i -= 1;
    }
    proof {
        lemma_settings_absent(s@, key@);
    }
    None
}

fn same_setting(a: Option<ResourceNotificationConfig>, b: Option<ResourceNotificationConfig>) -> (r: bool)
    ensures
        r == (a == b),
{
    match (a, b) {
        (None, None) => true,
        (Some(x), Some(y)) => x == y,
        _ => false,
    }
}

/// Whether two lists of notification settings mean the same map.
pub fn same_settings<R: ResourceKind>(
    a: &Vec<(R, ResourceNotificationConfig)>,
    b: &Vec<(R, ResourceNotificationConfig)>,
) -> (r: bool)
    ensures
        r == (settings_map(a@) == settings_map(b@)),
{
    let mut i: usize = 0;
    while i < a.len()
        invariant
            0 <= i <= a@.len(),
            forall|j: int| 0 <= j < i ==> map_get(settings_map(a@), #[trigger] a@[j].0.kind_key())
                == map_get(settings_map(b@), a@[j].0.kind_key()),
        decreases a@.len() - i,
    {
        let (r, _) = a[i];
        let k = r.key();
        if !same_setting(setting_for(a, k), setting_for(b, k)) {
            return false;
        }
        i += 1;
    }
    let mut i: usize = 0;
    while i < b.len()
        invariant
            0 <= i <= b@.len(),
            forall|j: int| 0 <= j < a@.len() ==> map_get(settings_map(a@), #[trigger] a@[j].0.kind_key())
                == map_get(settings_map(b@), a@[j].0.kind_key()),
            forall|j: int| 0 <= j < i ==> map_get(settings_map(a@), #[trigger] b@[j].0.kind_key())
                == map_get(settings_map(b@), b@[j].0.kind_key()),
        decreases b@.len() - i,
    {
        let (r, _) = b[i];
        let k = r.key();
        if !same_setting(setting_for(a, k), setting_for(b, k)) {
            return false;
        }
        i += 1;
    }
    proof {
        assert forall|k: Seq<char>| #[trigger] map_get(settings_map(a@), k) == map_get(settings_map(b@), k) by {
            if settings_map(a@).dom().contains(k) {
                lemma_settings_dom(a@, k);
                let j = choose|j: int| 0 <= j < a@.len() && #[trigger] a@[j].0.kind_key() == k;
                assert(map_get(settings_map(a@), a@[j].0.kind_key()) == map_get(settings_map(b@), a@[j].0.kind_key()));
            } else if settings_map(b@).dom().contains(k) {
                lemma_settings_dom(b@, k);
                let j = choose|j: int| 0 <= j < b@.len() && #[trigger] b@[j].0.kind_key() == k;
                assert(map_get(settings_map(a@), b@[j].0.kind_key()) == map_get(settings_map(b@), b@[j].0.kind_key()));
            }
        }
        assert forall|k: Seq<char>| #[trigger] settings_map(a@).dom().contains(k) == settings_map(b@).dom().contains(k)
            by {
            assert(map_get(settings_map(a@), k) == map_get(settings_map(b@), k));
        }
        assert(settings_map(a@) =~= settings_map(b@)) by {
            assert forall|k: Seq<char>| #[trigger] settings_map(a@).dom().contains(k) implies settings_map(a@)[k]
                == settings_map(b@)[k] by {
                assert(map_get(settings_map(a@), k) == map_get(settings_map(b@), k));
            }
        }
    }
    true
}

/// Whether two lists of resource types name the same keys in the same order.
pub fn same_resource_keys<R: ResourceKind>(a: &Vec<R>, b: &Vec<R>) -> (r: bool)
    ensures
        r == (keys_of(a@) == keys_of(b@)),
{
    if a.len() != b.len() {
        assert(keys_of(a@).len() != keys_of(b@).len());
        return false;
    }
    let mut i: usize = 0;
    while i < a.len()
        invariant
            a@.len() == b@.len(),
            0 <= i <= a@.len(),
            forall|j: int| 0 <= j < i ==> #[trigger] keys_of(a@)[j] == keys_of(b@)[j],
        decreases a@.len() - i,
    {
        if !str_eq(a[i].key(), b[i].key()) {
            assert(keys_of(a@)[i as int] != keys_of(b@)[i as int]);
            return false;
        }
        i += 1;
    }
    assert(keys_of(a@) =~= keys_of(b@));
    true
}

/// The keys of `raw` that name a resource type, in order.
pub open spec fn known_keys<R: ResourceKind>(raw: Seq<String>) -> Seq<Seq<char>>
    decreases raw.len(),
{
    if raw.len() == 0 {
        Seq::empty()
    } else if exists|t: R| #[trigger] t.kind_key() == raw.last()@ {
        known_keys::<R>(raw.drop_last()).push(raw.last()@)
    } else {
        known_keys::<R>(raw.drop_last())
    }
}

/// Reads a list of tracked resource keys, ignoring keys that name no
/// resource type of the game.
pub fn tracked_from_keys<R: ResourceKind>(raw: &Vec<String>) -> (v: Vec<R>)
    ensures
        keys_of(v@) == known_keys::<R>(raw@),
{
    let mut v: Vec<R> = Vec::new();
    let mut i: usize = 0;
    while i < raw.len()
        invariant
            0 <= i <= raw@.len(),
            keys_of(v@) == known_keys::<R>(raw@.take(i as int)),
        decreases raw@.len() - i,
    {
        let ghost before = v@;
        match R::parse_key(raw[i].as_str()) {
            Some(t) => {
                v.push(t);
                assert(keys_of(v@) =~= keys_of(before).push(t.kind_key()));
            },
            None => {},
        }
        proof {
            assert(raw@.take(i + 1).drop_last() =~= raw@.take(i as int));
            assert(raw@.take(i + 1).last() == raw@[i as int]);
        }
        i += 1;
    }
    assert(raw@.take(raw@.len() as int) =~= raw@);
    v
}

/// The entries of `raw` whose key names a resource type, in order, with the
/// keys read.
pub open spec fn known_settings<R: ResourceKind>(raw: Seq<(String, ResourceNotificationConfig)>) -> Seq<
    (Seq<char>, ResourceNotificationConfig),
>
    decreases raw.len(),
{
    if raw.len() == 0 {
        Seq::empty()
    } else if exists|t: R| #[trigger] t.kind_key() == raw.last().0@ {
        known_settings::<R>(raw.drop_last()).push((raw.last().0@, raw.last().1))
    } else {
        known_settings::<R>(raw.drop_last())
    }
}

/// The settings list with each resource replaced by its key.
pub open spec fn keyed_settings<R: ResourceKind>(s: Seq<(R, ResourceNotificationConfig)>) -> Seq<
    (Seq<char>, ResourceNotificationConfig),
> {
    s.map_values(|e: (R, ResourceNotificationConfig)| (e.0.kind_key(), e.1))
}

/// Reads notification settings keyed by resource key, ignoring keys that
/// name no resource type of the game.
pub fn settings_from_keys<R: ResourceKind>(raw: &Vec<(String, ResourceNotificationConfig)>) -> (v: Vec<
    (R, ResourceNotificationConfig),
>)
    ensures
        keyed_settings(v@) == known_settings::<R>(raw@),
{
    let mut v: Vec<(R, ResourceNotificationConfig)> = Vec::new();
    let mut i: usize = 0;
    while i < raw.len()
        invariant
            0 <= i <= raw@.len(),
            keyed_settings(v@) == known_settings::<R>(raw@.take(i as int)),
        decreases raw@.len() - i,
    {
        let ghost before = v@;
        let (k, c) = &raw[i];
        match R::parse_key(k.as_str()) {
            Some(t) => {
                v.push((t, *c));
                assert(keyed_settings(v@) =~= keyed_settings(before).push((t.kind_key(), *c)));
            },
            None => {},
        }
        proof {
            assert(raw@.take(i + 1).drop_last() =~= raw@.take(i as int));
            assert(raw@.take(i + 1).last() == raw@[i as int]);
        }
        i += 1;
    }
    assert(raw@.take(raw@.len() as int) =~= raw@);
    v
}

/// The settings list with each resource's key as a string.
pub fn settings_by_key<R: ResourceKind>(s: &Vec<(R, ResourceNotificationConfig)>) -> (v: Vec<
    (String, ResourceNotificationConfig),
>)
    ensures
        v@.len() == s@.len(),
        forall|i: int| 0 <= i < s@.len() ==> (#[trigger] v@[i]).0@ == s@[i].0.kind_key() && v@[i].1
            == s@[i].1,
{
    let mut v: Vec<(String, ResourceNotificationConfig)> = Vec::new();
    let mut i: usize = 0;
    while i < s.len()
        invariant
            0 <= i <= s@.len(),
            v@.len() == i,
            forall|j: int| 0 <= j < i ==> (#[trigger] v@[j]).0@ == s@[j].0.kind_key() && v@[j].1
                == s@[j].1,
        decreases s@.len() - i,
    {
        let (r, c) = s[i];
        v.push((r.key().to_owned(), c));
        i += 1;
    }
    v
}

/// Whether a game has settings and is enabled.
pub open spec fn game_enabled(games: GamesConfig, game_id: GameId) -> bool {
    match game_id {
        GameId::GenshinImpact => games.genshin_impact matches Some(c) && c.enabled,
        GameId::HonkaiStarRail => games.honkai_star_rail matches Some(c) && c.enabled,
        GameId::ZenlessZoneZero => games.zenless_zone_zero matches Some(c) && c.enabled,
        GameId::WutheringWaves => games.wuthering_waves matches Some(c) && c.enabled,
    }
}

/// Whether a game claims its daily reward automatically (never for
/// Wuthering Waves, which has no daily reward).
pub open spec fn game_auto_claims(games: GamesConfig, game_id: GameId) -> bool {
    match game_id {
        GameId::GenshinImpact => games.genshin_impact matches Some(c) && c.enabled
            && c.auto_claim_daily_rewards,
        GameId::HonkaiStarRail => games.honkai_star_rail matches Some(c) && c.enabled
            && c.auto_claim_daily_rewards,
        GameId::ZenlessZoneZero => games.zenless_zone_zero matches Some(c) && c.enabled
            && c.auto_claim_daily_rewards,
        GameId::WutheringWaves => false,
    }
}

/// The configured claim time of a game, if any.
pub open spec fn game_claim_time(games: GamesConfig, game_id: GameId) -> Option<ClaimTime> {
    match game_id {
        GameId::GenshinImpact => match games.genshin_impact {
            Some(c) => c.auto_claim_time,
            None => None,
        },
        GameId::HonkaiStarRail => match games.honkai_star_rail {
            Some(c) => c.auto_claim_time,
            None => None,
        },
        GameId::ZenlessZoneZero => match games.zenless_zone_zero {
            Some(c) => c.auto_claim_time,
            None => None,
        },
        GameId::WutheringWaves => None,
    }
}

/// The notification settings of a game, keyed by resource key (empty when
/// the game has no settings).
pub open spec fn game_settings(games: GamesConfig, game_id: GameId) -> Seq<
    (Seq<char>, ResourceNotificationConfig),
> {
    match game_id {
        GameId::GenshinImpact => match games.genshin_impact {
            Some(c) => keyed_settings(c.notifications@),
            None => Seq::empty(),
        },
        GameId::HonkaiStarRail => match games.honkai_star_rail {
            Some(c) => keyed_settings(c.notifications@),
            None => Seq::empty(),
        },
        GameId::ZenlessZoneZero => match games.zenless_zone_zero {
            Some(c) => keyed_settings(c.notifications@),
            None => Seq::empty(),
        },
        GameId::WutheringWaves => match games.wuthering_waves {
            Some(c) => keyed_settings(c.notifications@),
            None => Seq::empty(),
        },
    }
}

/// The settings list with each key as a string.
pub open spec fn string_keyed(v: Seq<(String, ResourceNotificationConfig)>) -> Seq<
    (Seq<char>, ResourceNotificationConfig),
> {
    v.map_values(|e: (String, ResourceNotificationConfig)| (e.0@, e.1))
}

impl GamesConfig {
    /// Whether the game is configured and enabled.
    pub fn is_enabled(&self, game_id: GameId) -> (b: bool)
        ensures
            b == game_enabled(*self, game_id),
    {
        match game_id {
            GameId::GenshinImpact => match &self.genshin_impact {
                Some(c) => c.enabled,
                None => false,
            },
            GameId::HonkaiStarRail => match &self.honkai_star_rail {
                Some(c) => c.enabled,
                None => false,
            },
            GameId::ZenlessZoneZero => match &self.zenless_zone_zero {
                Some(c) => c.enabled,
                None => false,
            },
            GameId::WutheringWaves => match &self.wuthering_waves {
                Some(c) => c.enabled,
                None => false,
            },
        }
    }

    /// Whether the game is enabled with automatic daily-reward claiming.
    pub fn auto_claim_enabled(&self, game_id: GameId) -> (b: bool)
        ensures
            b == game_auto_claims(*self, game_id),
    {
        match game_id {
            GameId::GenshinImpact => match &self.genshin_impact {
                Some(c) => c.enabled && c.auto_claim_daily_rewards,
                None => false,
            },
            GameId::HonkaiStarRail => match &self.honkai_star_rail {
                Some(c) => c.enabled && c.auto_claim_daily_rewards,
                None => false,
            },
            GameId::ZenlessZoneZero => match &self.zenless_zone_zero {
                Some(c) => c.enabled && c.auto_claim_daily_rewards,
                None => false,
            },
            GameId::WutheringWaves => false,
        }
    }

    /// The game's configured claim time, if any.
    pub fn auto_claim_time(&self, game_id: GameId) -> (t: Option<ClaimTime>)
        ensures
            t == game_claim_time(*self, game_id),
    {
        match game_id {
            GameId::GenshinImpact => match &self.genshin_impact {
                Some(c) => c.auto_claim_time,
                None => None,
            },
            GameId::HonkaiStarRail => match &self.honkai_star_rail {
                Some(c) => c.auto_claim_time,
                None => None,
            },
            GameId::ZenlessZoneZero => match &self.zenless_zone_zero {
                Some(c) => c.auto_claim_time,
                None => None,
            },
            GameId::WutheringWaves => None,
        }
    }

    /// The game's notification settings keyed by resource key.
    pub fn notification_configs(&self, game_id: GameId) -> (v: Vec<(String, ResourceNotificationConfig)>)
        ensures
            string_keyed(v@) == game_settings(*self, game_id),
    {
        let v = match game_id {
            GameId::GenshinImpact => match &self.genshin_impact {
                Some(c) => settings_by_key(&c.notifications),
                None => Vec::new(),
            },
            GameId::HonkaiStarRail => match &self.honkai_star_rail {
                Some(c) => settings_by_key(&c.notifications),
                None => Vec::new(),
            },
            GameId::ZenlessZoneZero => match &self.zenless_zone_zero {
                Some(c) => settings_by_key(&c.notifications),
                None => Vec::new(),
            },
            GameId::WutheringWaves => match &self.wuthering_waves {
                Some(c) => settings_by_key(&c.notifications),
                None => Vec::new(),
            },
        };
        assert(string_keyed(v@) =~= game_settings(*self, game_id));
        v
    }
}

/// HoYoLab credentials (the v2 cookies).
#[derive(Debug, Clone)]
pub struct HoyolabSecrets {
    /// The `ltuid_v2` cookie.
    pub ltuid_v2: String,
    /// The `ltoken_v2` cookie.
    pub ltoken_v2: String,
    /// The `ltmid_v2` cookie.
    pub ltmid_v2: String,
}

impl Default for HoyolabSecrets {
    fn default() -> (s: Self)
        ensures
            s.ltuid_v2@ == Seq::<char>::empty(),
            s.ltoken_v2@ == Seq::<char>::empty(),
            s.ltmid_v2@ == Seq::<char>::empty(),
    {
        HoyolabSecrets { ltuid_v2: String::new(), ltoken_v2: String::new(), ltmid_v2: String::new() }
    }
}

impl HoyolabSecrets {
    /// Whether both the user ID and the token are set.
    pub fn is_configured(&self) -> (b: bool)
        ensures
            b == (self.ltuid_v2@.len() > 0 && self.ltoken_v2@.len() > 0),
    {
        proof {
            vstd::utf8::encode_utf8_decode_utf8(self.ltuid_v2@);
            vstd::utf8::encode_utf8_decode_utf8(self.ltoken_v2@);
        }
        self.ltuid_v2.as_str().as_bytes().len() > 0 && self.ltoken_v2.as_str().as_bytes().len() > 0
    }

    /// The user ID cookie.
    pub fn ltuid(&self) -> (s: &str)
        ensures
            s@ == self.ltuid_v2@,
    {
        self.ltuid_v2.as_str()
    }

    /// The token cookie.
    pub fn ltoken(&self) -> (s: &str)
        ensures
            s@ == self.ltoken_v2@,
    {
        self.ltoken_v2.as_str()
    }
}

/// Kuro Games credentials.
#[derive(Debug, Clone)]
pub struct KuroSecrets {
    /// OAuth code overriding the one in the launcher cache (empty: none).
    pub oauth_code: String,
}

impl Default for KuroSecrets {
    fn default() -> (s: Self)
        ensures
            s.oauth_code@ == Seq::<char>::empty(),
    {
        KuroSecrets { oauth_code: String::new() }
    }
}

impl KuroSecrets {
    /// Whether an OAuth code override is set.
    pub fn has_override(&self) -> (b: bool)
        ensures
            b == (self.oauth_code@.len() > 0),
    {
        proof {
            vstd::utf8::encode_utf8_decode_utf8(self.oauth_code@);
        }
        self.oauth_code.as_str().as_bytes().len() > 0
    }

    /// The OAuth code override, if set.
    pub fn oauth_code_override(&self) -> (r: Option<&str>)
        ensures
            self.oauth_code@.len() == 0 ==> r is None,
            self.oauth_code@.len() > 0 ==> (r matches Some(s) && s@ == self.oauth_code@),
    {
        if self.has_override() {
            Some(self.oauth_code.as_str())
        } else {
            None
        }
    }
}

/// All credentials.
#[derive(Debug, Clone)]
pub struct SecretsConfig {
    /// HoYoLab credentials.
    pub hoyolab: HoyolabSecrets,
    /// Kuro Games credentials.
    pub kuro: KuroSecrets,
}

impl Default for SecretsConfig {
    fn default() -> (s: Self)
        ensures
            s.hoyolab.ltuid_v2@ == Seq::<char>::empty(),
            s.hoyolab.ltoken_v2@ == Seq::<char>::empty(),
            s.hoyolab.ltmid_v2@ == Seq::<char>::empty(),
            s.kuro.oauth_code@ == Seq::<char>::empty(),
    {
        SecretsConfig { hoyolab: HoyolabSecrets::default(), kuro: KuroSecrets::default() }
    }
}

/// Resources tracked when the configuration names none: all of the game's.
pub fn default_genshin_resources() -> (v: Vec<GenshinResourceType>)
    ensures
        v@ == crate::resource_types::all_genshin(),
{
    GenshinResourceType::all()
}

/// Resources tracked when the configuration names none: all of the game's.
pub fn default_hsr_resources() -> (v: Vec<HsrResourceType>)
    ensures
        v@ == seq![HsrResourceType::TrailblazePower],
{
    HsrResourceType::all()
}

/// Resources tracked when the configuration names none: all of the game's.
pub fn default_zzz_resources() -> (v: Vec<ZzzResourceType>)
    ensures
        v@ == seq![ZzzResourceType::Battery],
{
    ZzzResourceType::all()
}

/// Resources tracked when the configuration names none: all of the game's.
pub fn default_wuwa_resources() -> (v: Vec<WuwaResourceType>)
    ensures
        v@ == seq![WuwaResourceType::Waveplates],
{
    WuwaResourceType::all()
}

/// The configuration file written when none exists: every setting with its
/// default, every game disabled, and comments explaining each option.
pub fn default_config_content() -> (s: &'static str)
    ensures
        s@ == DEFAULT_CONFIG_CONTENT@,
{
    DEFAULT_CONFIG_CONTENT
}

/// The text of the default configuration file.
pub const DEFAULT_CONFIG_CONTENT: &'static str = r#"# Storekeeper Configuration
# This file contains non-sensitive application settings.
#
# For sensitive credentials (API tokens, cookies), see secrets.toml

[general]
# Polling interval in seconds (default: 300 = 5 minutes)
poll_interval_secs = 300

# Start the app minimized to system tray (default: true)
start_minimized = true

# Log level: error, warn, info, debug, trace (default: info)
log_level = "info"

# Automatically start the app when the system boots (default: false)
autostart = false

# =============================================================================
# GAME CONFIGURATION
# =============================================================================
# Enable only the games you play. Each game requires:
# 1. enabled = true
# 2. Your UID/Player ID
# 3. Credentials in secrets.toml
#
# HoYoLab games (Genshin, HSR, ZZZ) support auto-claiming daily rewards:
#   auto_claim_daily_rewards = true/false
#   auto_claim_time = "HH:MM"  # Optional, in UTC+8. Defaults to "00:00" (midnight)
#
# Per-resource notifications (optional):
#   [games.<game>.notifications.<resource_type>]
#   enabled = true
#   notify_minutes_before_full = 60  # Start notifying 60 min before full
#   # notify_at_value = 180          # OR: notify when value reaches 180 (stamina resources only)
#   cooldown_minutes = 10            # Minutes between repeated notifications

# Genshin Impact
[games.genshin_impact]
enabled = false
uid = "YOUR_UID_HERE"
# region = "os_usa"  # Optional: auto-detected from UID
# auto_claim_daily_rewards = false
# auto_claim_time = "00:00"  # Optional: HH:MM in UTC+8 (China Standard Time)
#
# [games.genshin_impact.notifications.resin]
# enabled = true
# notify_minutes_before_full = 60
# cooldown_minutes = 10

# Honkai: Star Rail
[games.honkai_star_rail]
enabled = false
uid = "YOUR_UID_HERE"
# region = "prod_official_usa"  # Optional: auto-detected from UID
# auto_claim_daily_rewards = false
# auto_claim_time = "00:00"  # Optional: HH:MM in UTC+8 (China Standard Time)
#
# [games.honkai_star_rail.notifications.trailblaze_power]
# enabled = true
# notify_minutes_before_full = 30
# cooldown_minutes = 15

# Zenless Zone Zero
[games.zenless_zone_zero]
enabled = false
uid = "YOUR_UID_HERE"
# region = "prod_gf_us"  # Optional: auto-detected from UID
# auto_claim_daily_rewards = false
# auto_claim_time = "00:00"  # Optional: HH:MM in UTC+8 (China Standard Time)
#
# [games.zenless_zone_zero.notifications.battery]
# enabled = true
# notify_minutes_before_full = 30
# cooldown_minutes = 15

# Wuthering Waves
[games.wuthering_waves]
enabled = false
player_id = "YOUR_PLAYER_ID_HERE"
# region = "na"  # Optional: auto-detected from player ID
#
# [games.wuthering_waves.notifications.waveplates]
# enabled = true
# notify_minutes_before_full = 30
# cooldown_minutes = 15
"#;

/// The secrets file written when none exists: empty credentials with
/// instructions for obtaining them.
pub fn default_secrets_content() -> (s: &'static str)
    ensures
        s@ == DEFAULT_SECRETS_CONTENT@,
{
    DEFAULT_SECRETS_CONTENT
}

/// The text of the default secrets file.
pub const DEFAULT_SECRETS_CONTENT: &'static str = r#"# Storekeeper Secrets Configuration
# This file contains sensitive credentials. Keep it secure!
#
# WARNING: Never share this file or commit it to version control.

# =============================================================================
# HoYoLab Authentication (for Genshin Impact, HSR, ZZZ)
# =============================================================================
# Get these cookies from the HoYoLab website:
# 1. Go to https://www.hoyolab.com and log in
# 2. Open browser Developer Tools (F12) > Application > Cookies
# 3. Find cookies named "ltuid_v2", "ltoken_v2", and "ltmid_v2"

[hoyolab]
# Required: v2 authentication cookies
ltuid_v2 = ""
ltoken_v2 = ""
ltmid_v2 = ""

# =============================================================================
# Kuro Games Authentication (for Wuthering Waves)
# =============================================================================
# AUTOMATIC: The oauth_code is automatically loaded from the Kuro SDK cache:
#   %APPDATA%\KR_G153\A1730\KRSDKUserLauncherCache.json
#
# You typically don't need to set anything here - just enable Wuthering Waves
# in config.toml and credentials will be loaded automatically.
#
# OPTIONAL OVERRIDE: Set oauth_code below to override automatic detection.

[kuro]
# Optional: uncomment and set to override automatic detection
# oauth_code = ""
"#;


/// A HoYoLab game claims its daily reward automatically exactly when it is
/// configured, enabled and has `auto_claim_daily_rewards` turned on; with
/// auto-claim off or the game disabled it is never claimed automatically,
/// and Wuthering Waves never is.
pub proof fn lemma_auto_claim_needs_enabled_and_flag(games: GamesConfig)
    ensures
        game_auto_claims(games, GameId::GenshinImpact) <==> (games.genshin_impact is Some
            && games.genshin_impact->0.enabled && games.genshin_impact->0.auto_claim_daily_rewards),
        game_auto_claims(games, GameId::HonkaiStarRail) <==> (games.honkai_star_rail is Some
            && games.honkai_star_rail->0.enabled && games.honkai_star_rail->0.auto_claim_daily_rewards),
        game_auto_claims(games, GameId::ZenlessZoneZero) <==> (games.zenless_zone_zero is Some
            && games.zenless_zone_zero->0.enabled && games.zenless_zone_zero->0.auto_claim_daily_rewards),
        !game_auto_claims(games, GameId::WutheringWaves),
        forall|g: GameId| #[trigger] game_auto_claims(games, g) ==> game_enabled(games, g),
{
}

/// The claim time of a HoYoLab game is the one configured for it (none when
/// the game has no settings); Wuthering Waves has none.
pub proof fn lemma_claim_time_is_the_configured_one(games: GamesConfig)
    ensures
        games.genshin_impact is Some ==> game_claim_time(games, GameId::GenshinImpact)
            == games.genshin_impact->0.auto_claim_time,
        games.honkai_star_rail is Some ==> game_claim_time(games, GameId::HonkaiStarRail)
            == games.honkai_star_rail->0.auto_claim_time,
        games.zenless_zone_zero is Some ==> game_claim_time(games, GameId::ZenlessZoneZero)
            == games.zenless_zone_zero->0.auto_claim_time,
        games.genshin_impact is None ==> game_claim_time(games, GameId::GenshinImpact) is None,
        games.honkai_star_rail is None ==> game_claim_time(games, GameId::HonkaiStarRail) is None,
        games.zenless_zone_zero is None ==> game_claim_time(games, GameId::ZenlessZoneZero) is None,
        game_claim_time(games, GameId::WutheringWaves) is None,
{
}

} // verus!
