//! Notification decisions for tracked resources: when a resource has entered
//! its notification window, and the per-(game, resource) cooldown that keeps
//! a reminder from repeating too often.
//!
//! Instants are whole seconds since the Unix epoch.

use vstd::prelude::*;
use crate::game_id::GameId;
use crate::resource::{CooldownResource, ExpeditionResource, StaminaResource};
use crate::text::{decimal, i64_decimal, join2, join3, str_eq, u64_decimal};

verus! {

/// Notification configuration for a specific resource.
///
/// Two threshold modes: `notify_minutes_before_full` fires that many minutes
/// before the resource is full, `notify_at_value` fires when the value
/// reaches N. When both are set, `notify_at_value` takes priority; when
/// neither is, a notification fires only when the resource is full.
#[derive(Debug, Clone, Copy, PartialEq, Eq, Structural)]
pub struct ResourceNotificationConfig {
    /// Whether notifications are enabled for this resource.
    pub enabled: bool,
    /// Minutes before full to start notifying.
    pub notify_minutes_before_full: Option<u32>,
    /// Resource value at which to notify (stamina resources only).
    pub notify_at_value: Option<u64>,
    /// Minutes between repeated notifications; 0 notifies once per window.
    pub cooldown_minutes: u32,
}

impl ResourceNotificationConfig {
    /// A config with its fields given.
    pub fn new(
        enabled: bool,
        notify_minutes_before_full: Option<u32>,
        notify_at_value: Option<u64>,
        cooldown_minutes: u32,
    ) -> (c: Self)
        ensures
            c == (ResourceNotificationConfig {
                enabled,
                notify_minutes_before_full,
                notify_at_value,
                cooldown_minutes,
            }),
    {
        ResourceNotificationConfig { enabled, notify_minutes_before_full, notify_at_value, cooldown_minutes }
    }
}

/// Extracted timing info of one resource.
#[derive(Debug, Clone, Copy, PartialEq, Eq, Structural)]
pub struct ResourceInfo {
    /// When the resource will be complete/full/ready (seconds since the epoch).
    pub completion_at: i64,
    /// Whether the resource is already complete.
    pub is_complete: bool,
    /// Current resource value (stamina resources only).
    pub current: Option<u64>,
    /// Maximum resource value (stamina resources only).
    pub max: Option<u64>,
    /// Seconds between accrual steps (stamina resources only).
    pub regen_rate_seconds: Option<u64>,
    /// Units credited per accrual step (stamina resources only).
    pub regen_step_units: Option<u64>,
}

/// Largest number of whole minutes a signed time span of milliseconds can hold.
pub open spec fn max_span_minutes() -> int {
    153722867280912
}

/// In value-threshold mode with a known rate: the window, in minutes before
/// full, that the threshold stands for. Saturates like the unsigned
/// multiplication and the signed conversion it is computed with.
pub open spec fn value_window_minutes(max: u64, threshold: u64, rate: u64) -> int {
    let units: int = if max >= threshold { max - threshold } else { 0 };
    let prod: int = units * rate;
    let mins: int = if prod > u64::MAX { (u64::MAX as int) / 60 } else { prod / 60 };
    if mins > i64::MAX { i64::MAX as int } else { mins }
}

/// Whether the window length a config implies can be represented as a time
/// span (a longer one aborts the check).
pub open spec fn window_representable(config: ResourceNotificationConfig, info: ResourceInfo) -> bool {
    match config.notify_at_value {
        Some(threshold) => match (info.max, info.regen_rate_seconds) {
            (Some(max), Some(rate)) => value_window_minutes(max, threshold, rate) <= max_span_minutes(),
            _ => true,
        },
        None => true,
    }
}

/// Whether a resource is inside its notification window at `now`.
pub open spec fn in_window(config: ResourceNotificationConfig, info: ResourceInfo, now: int) -> bool {
    let time_to_full: int = info.completion_at - now;
    match config.notify_at_value {
        Some(threshold) => match (info.max, info.regen_rate_seconds) {
            (Some(max), Some(rate)) => info.is_complete || time_to_full <= value_window_minutes(
                max,
                threshold,
                rate,
            ) * 60,
            _ => (info.current matches Some(c) && c >= threshold) || info.is_complete,
        },
        None => match config.notify_minutes_before_full {
            Some(m) => info.is_complete || time_to_full <= m * 60,
            None => info.is_complete,
        },
    }
}

/// A cooldown key: the game and the resource's type tag.
pub type CooldownKey = (GameId, Seq<char>);

/// Whether, in window, a notification is due given when the pair was last
/// notified (if ever).
pub open spec fn cooldown_allows(last: Option<i64>, config: ResourceNotificationConfig, now: int) -> bool {
    match last {
        None => true,
        Some(t) => config.cooldown_minutes != 0 && now - t >= config.cooldown_minutes * 60,
    }
}

/// The decision `should_notify` takes on a cooldown map.
pub open spec fn notify_decision(
    m: Map<CooldownKey, i64>,
    key: CooldownKey,
    config: ResourceNotificationConfig,
    info: ResourceInfo,
    now: int,
) -> bool {
    in_window(config, info, now) && cooldown_allows(
        if m.contains_key(key) { Some(m[key]) } else { None },
        config,
        now,
    )
}

/// The map a `should_notify` call leaves: a pair outside its window forgets
/// its cooldown.
pub open spec fn notify_update(
    m: Map<CooldownKey, i64>,
    key: CooldownKey,
    config: ResourceNotificationConfig,
    info: ResourceInfo,
    now: int,
) -> Map<CooldownKey, i64> {
    if in_window(config, info, now) { m } else { m.remove(key) }
}

/// `a - b` on seconds, without overflow.
fn span(a: i64, b: i64) -> (r: i128)
    ensures
        r == a - b,
{
    a as i128 - b as i128
}

/// The window length, in minutes, of value-threshold mode with a known rate.
fn value_window(max: u64, threshold: u64, rate: u64) -> (r: i64)
    ensures
        r == value_window_minutes(max, threshold, rate),
{
    let units = max.saturating_sub(threshold);
    assert(units as u128 * rate as u128 <= u64::MAX as u128 * u64::MAX as u128) by (nonlinear_arith)
        requires
            units <= u64::MAX,
            rate <= u64::MAX,
    ;
    let prod: u128 = units as u128 * rate as u128;
    let mins: u64 = if prod > u64::MAX as u128 { u64::MAX / 60 } else { (prod / 60) as u64 };
    if mins > i64::MAX as u64 { i64::MAX } else { mins as i64 }
}

/// Decides whether a resource is inside its notification window at `now`.
pub fn is_in_window(config: &ResourceNotificationConfig, info: &ResourceInfo, now: i64) -> (r: bool)
    requires
        window_representable(*config, *info),
    ensures
        r == in_window(*config, *info, now as int),
{
    let time_to_full = span(info.completion_at, now);
    match config.notify_at_value {
        Some(threshold) => match (info.max, info.regen_rate_seconds) {
            (Some(max), Some(rate)) => {
                let mins = value_window(max, threshold, rate);
                info.is_complete || time_to_full <= mins as i128 * 60
            },
            _ => {
                let reached = match info.current {
                    Some(c) => c >= threshold,
                    None => false,
                };
                reached || info.is_complete
            },
        },
        None => match config.notify_minutes_before_full {
            Some(m) => info.is_complete || time_to_full <= m as i128 * 60,
            None => info.is_complete,
        },
    }
}

/// When a (game, resource) pair was last notified.
#[derive(Debug)]
pub struct CooldownEntry {
    /// The game.
    pub game_id: GameId,
    /// The resource's type tag.
    pub resource_type: String,
    /// The instant of the last notification.
    pub notified_at: i64,
}

/// The key of an entry.
pub open spec fn entry_key(e: CooldownEntry) -> CooldownKey {
    (e.game_id, e.resource_type@)
}

/// No two entries share a key.
pub open spec fn keys_unique(s: Seq<CooldownEntry>) -> bool {
    forall|i: int, j: int|
        0 <= i < s.len() && 0 <= j < s.len() && i != j ==> entry_key(#[trigger] s[i]) != entry_key(
            #[trigger] s[j],
        )
}

/// The map from key to instant that a list of entries stands for.
pub open spec fn view_of(s: Seq<CooldownEntry>) -> Map<CooldownKey, i64> {
    Map::new(
        |k: CooldownKey| exists|i: int| 0 <= i < s.len() && entry_key(s[i]) == k,
        |k: CooldownKey| s[choose|i: int| 0 <= i < s.len() && entry_key(s[i]) == k].notified_at,
    )
}

/// In a list with unique keys, each entry is what the map says of its key.
proof fn lemma_view_index(s: Seq<CooldownEntry>, i: int)
    requires
        keys_unique(s),
        0 <= i < s.len(),
    ensures
        view_of(s).contains_key(entry_key(s[i])),
        view_of(s)[entry_key(s[i])] == s[i].notified_at,
{
    let k = entry_key(s[i]);
    assert(exists|j: int| 0 <= j < s.len() && entry_key(s[j]) == k);
    let j = choose|j: int| 0 <= j < s.len() && entry_key(s[j]) == k;
    if i != j {
        assert(entry_key(s[i]) != entry_key(s[j]));
    }
}

/// Two lists with unique keys stand for the same map when they hold the same
/// keys and agree, key by key, on the instant.
proof fn lemma_view_ext(s: Seq<CooldownEntry>, m: Map<CooldownKey, i64>)
    requires
        keys_unique(s),
        forall|i: int| 0 <= i < s.len() ==> #[trigger] m.contains_key(entry_key(s[i])) && m[entry_key(s[i])] == s[i].notified_at,
        forall|k: CooldownKey| #[trigger] m.contains_key(k) ==> exists|i: int| 0 <= i < s.len() && entry_key(s[i]) == k,
    ensures
        view_of(s) == m,
{
    assert forall|k: CooldownKey| view_of(s).contains_key(k) <==> m.contains_key(k) by {
        if view_of(s).contains_key(k) {
            let i = choose|i: int| 0 <= i < s.len() && entry_key(s[i]) == k;
            assert(m.contains_key(entry_key(s[i])));
        }
    }
    assert forall|k: CooldownKey| view_of(s).contains_key(k) implies view_of(s)[k] == m[k] by {
        let i = choose|i: int| 0 <= i < s.len() && entry_key(s[i]) == k;
        lemma_view_index(s, i);
        assert(m.contains_key(entry_key(s[i])));
    }
    assert(view_of(s) =~= m);
}

/// A list of entries stands for a finite map with one key per entry.
proof fn lemma_view_len(s: Seq<CooldownEntry>)
    requires
        keys_unique(s),
    ensures
        view_of(s).dom().finite(),
        view_of(s).len() == s.len(),
{
    let keys = s.map_values(|e: CooldownEntry| entry_key(e));
    assert(keys.no_duplicates()) by {
        assert forall|i: int, j: int| 0 <= i < keys.len() && 0 <= j < keys.len() && i != j implies keys[i] != keys[j] by {
            assert(entry_key(s[i]) != entry_key(s[j]));
        }
    }
    assert(view_of(s).dom() =~= keys.to_set()) by {
        assert forall|k: CooldownKey| view_of(s).dom().contains(k) implies keys.to_set().contains(k) by {
            let i = choose|i: int| 0 <= i < s.len() && entry_key(s[i]) == k;
            assert(keys[i] == k);
        }
        assert forall|k: CooldownKey| keys.to_set().contains(k) implies view_of(s).dom().contains(k) by {
            let i = choose|i: int| 0 <= i < keys.len() && keys[i] == k;
            assert(entry_key(s[i]) == k);
        }
    }
    keys.unique_seq_to_set();
}

/// Whether a key is dropped by a clear of one pair, or of a whole game.
pub open spec fn drop_key(k: CooldownKey, game_id: GameId, resource_type: Seq<char>, whole_game: bool) -> bool {
    if whole_game { k.0 == game_id } else { k == (game_id, resource_type) }
}

/// Whether `e` is an entry of `s` at or after `lo` that a clear keeps.
pub open spec fn kept_from(
    e: CooldownEntry,
    s: Seq<CooldownEntry>,
    lo: int,
    game_id: GameId,
    resource_type: Seq<char>,
    whole_game: bool,
) -> bool {
    exists|b: int| lo <= b < s.len() && s[b] == e && !drop_key(entry_key(s[b]), game_id, resource_type, whole_game)
}

/// The keys a clear keeps.
pub open spec fn kept_keys(game_id: GameId, resource_type: Seq<char>, whole_game: bool) -> Set<CooldownKey> {
    Set::new(|k: CooldownKey| !drop_key(k, game_id, resource_type, whole_game))
}

/// Tracks notification cooldown state per (game, resource) pair.
#[derive(Debug)]
pub struct NotificationTracker {
    entries: Vec<CooldownEntry>,
}

impl NotificationTracker {
    /// No two entries share a key.
    #[verifier::type_invariant]
    closed spec fn wf(&self) -> bool {
        keys_unique(self.entries@)
    }

    /// The cooldown map: when each tracked pair was last notified.
    pub closed spec fn view(&self) -> Map<CooldownKey, i64> {
        view_of(self.entries@)
    }

    /// An empty tracker.
    pub fn new() -> (t: Self)
        ensures
            t@ == Map::<CooldownKey, i64>::empty(),
    {
        let t = NotificationTracker { entries: Vec::new() };
        assert(t@ =~= Map::<CooldownKey, i64>::empty());
        t
    }

    /// The number of tracked pairs.
    pub fn len(&self) -> (n: usize)
        ensures
            self@.dom().finite(),
            n == self@.len(),
    {
        proof {
            use_type_invariant(self);
            lemma_view_len(self.entries@);
        }
        self.entries.len()
    }

    /// Finds the entry of a pair.
    fn find(&self, game_id: GameId, resource_type: &str) -> (r: Option<usize>)
        ensures
            r matches Some(i) ==> i < self.entries@.len() && entry_key(self.entries@[i as int]) == (
            game_id, resource_type@),
            r is None ==> !self@.contains_key((game_id, resource_type@)),
    {
        let mut i: usize = 0;
        while i < self.entries.len()
            invariant
                0 <= i <= self.entries@.len(),
                forall|k: int| 0 <= k < i ==> entry_key(#[trigger] self.entries@[k]) != (game_id, resource_type@),
            decreases self.entries@.len() - i,
        {
            if self.entries[i].game_id == game_id && str_eq(self.entries[i].resource_type.as_str(), resource_type) {
                return Some(i);
            }
            i = i + 1;
        }
        None
    }

    /// When the pair was last notified, if it is tracked.
    pub fn last_notified(&self, game_id: GameId, resource_type: &str) -> (r: Option<i64>)
        ensures
            r == (if self@.contains_key((game_id, resource_type@)) {
                Some(self@[(game_id, resource_type@)])
            } else {
                None
            }),
    {
        proof {
            use_type_invariant(self);
        }
        match self.find(game_id, resource_type) {
            Some(i) => {
                proof {
                    lemma_view_index(self.entries@, i as int);
                }
                Some(self.entries[i].notified_at)
            },
            None => None,
        }
    }

    /// Records that a notification was sent at `now` for this pair.
    pub fn record(&mut self, game_id: GameId, resource_type: &str, now: i64)
        ensures
            final(self)@ == old(self)@.insert((game_id, resource_type@), now),
    {
        proof {
            use_type_invariant(&*self);
        }
        let ghost old_m = self@;
        let ghost old_entries = self.entries@;
        let key_ghost = Ghost((game_id, resource_type@));
        let found = self.find(game_id, resource_type);
        let entry = CooldownEntry { game_id, resource_type: resource_type.to_owned(), notified_at: now };
        let mut entries = Vec::new();
        std::mem::swap(&mut entries, &mut self.entries);
        match found {
            Some(i) => {
                entries.set(i, entry);
            },
            None => {
                entries.push(entry);
            },
        }
        proof {
            let s = entries@;
            let m = old_m.insert(key_ghost@, now);
            assert(keys_unique(s)) by {
                assert forall|a: int, b: int| 0 <= a < s.len() && 0 <= b < s.len() && a != b implies entry_key(
                    #[trigger] s[a],
                ) != entry_key(#[trigger] s[b]) by {
                    if found is Some {
                        let i = found->0 as int;
                        if a != i && b != i {
                            assert(entry_key(old_entries[a]) != entry_key(old_entries[b]));
                        } else if a == i {
                            assert(entry_key(old_entries[i]) != entry_key(old_entries[b]));
                        } else {
                            assert(entry_key(old_entries[a]) != entry_key(old_entries[i]));
                        }
                    } else {
                        let n = old_entries.len() as int;
                        if a == n {
                            lemma_view_index(old_entries, b);
                        } else if b == n {
                            lemma_view_index(old_entries, a);
                        } else {
                            assert(entry_key(old_entries[a]) != entry_key(old_entries[b]));
                        }
                    }
                }
            }
            assert forall|j: int| 0 <= j < s.len() implies #[trigger] m.contains_key(entry_key(s[j])) && m[entry_key(s[j])] == s[j].notified_at by {
                if entry_key(s[j]) != key_ghost@ {
                    lemma_view_index(old_entries, j);
                }
            }
            assert forall|k: CooldownKey| #[trigger] m.contains_key(k) implies exists|j: int| 0 <= j < s.len() && entry_key(s[j]) == k by {
                if k == key_ghost@ {
                    if found is Some {
                        assert(entry_key(s[found->0 as int]) == k);
                    } else {
                        assert(entry_key(s[old_entries.len() as int]) == k);
                    }
                } else {
                    let j = choose|j: int| 0 <= j < old_entries.len() && entry_key(old_entries[j]) == k;
                    assert(entry_key(s[j]) == k);
                }
            }
            lemma_view_ext(s, m);
        }
        self.entries = entries;
    }

    /// Drops the entries a clear names: one pair, or every pair of a game.
    fn drop_entries(&mut self, game_id: GameId, resource_type: &str, whole_game: bool)
        ensures
            final(self)@ == old(self)@.restrict(kept_keys(game_id, resource_type@, whole_game)),
    {
        proof {
            use_type_invariant(&*self);
        }
        let ghost old_entries = self.entries@;
        let ghost n = old_entries.len() as int;
        let ghost rt = resource_type@;
        let mut rest: Vec<CooldownEntry> = Vec::new();
        std::mem::swap(&mut rest, &mut self.entries);
        let mut kept: Vec<CooldownEntry> = Vec::new();
        while rest.len() > 0
            invariant
                keys_unique(old_entries),
                rest@ == old_entries.subrange(0, rest@.len() as int),
                rest@.len() <= n,
                n == old_entries.len(),
                rt == resource_type@,
                keys_unique(kept@),
                forall|a: int| 0 <= a < kept@.len() ==> #[trigger] kept_from(kept@[a], old_entries, rest@.len() as int, game_id, rt, whole_game),
                forall|b: int| rest@.len() <= b < n && !drop_key(entry_key(#[trigger] old_entries[b]), game_id, rt, whole_game) ==> exists|a: int| 0 <= a < kept@.len() && kept@[a] == old_entries[b],
            decreases rest@.len(),
        {
            let ghost before_rest = rest@;
            let ghost before_kept = kept@;
            let e = rest.pop().unwrap();
            let ghost b0 = rest@.len() as int;
            assert(e == old_entries[b0]);
            let drop = if whole_game {
                e.game_id == game_id
            } else {
                e.game_id == game_id && str_eq(e.resource_type.as_str(), resource_type)
            };
            if !drop {
                kept.push(e);
                proof {
                    assert(keys_unique(kept@)) by {
                        let s = kept@;
                        assert forall|a: int, c: int| 0 <= a < s.len() && 0 <= c < s.len() && a != c implies entry_key(
                            #[trigger] s[a],
                        ) != entry_key(#[trigger] s[c]) by {
                            let last = before_kept.len() as int;
                            if a == last && c != last {
                                assert(kept_from(before_kept[c], old_entries, before_rest.len() as int, game_id, rt, whole_game));
                                let b = choose|b: int| before_rest.len() <= b < old_entries.len() && old_entries[b] == before_kept[c] && !drop_key(entry_key(old_entries[b]), game_id, rt, whole_game);
                                assert(entry_key(old_entries[b0]) != entry_key(old_entries[b]));
                            } else if c == last && a != last {
                                assert(kept_from(before_kept[a], old_entries, before_rest.len() as int, game_id, rt, whole_game));
                                let b = choose|b: int| before_rest.len() <= b < old_entries.len() && old_entries[b] == before_kept[a] && !drop_key(entry_key(old_entries[b]), game_id, rt, whole_game);
                                assert(entry_key(old_entries[b0]) != entry_key(old_entries[b]));
                            } else if a != last && c != last {
                                assert(entry_key(before_kept[a]) != entry_key(before_kept[c]));
                            }
                        }
                    }
                    assert forall|a: int| 0 <= a < kept@.len() implies #[trigger] kept_from(kept@[a], old_entries, rest@.len() as int, game_id, rt, whole_game) by {
                        if a == before_kept.len() {
                            assert(old_entries[b0] == kept@[a]);
                        } else {
                            assert(kept@[a] == before_kept[a]);
                            assert(kept_from(before_kept[a], old_entries, before_rest.len() as int, game_id, rt, whole_game));
                            let b = choose|b: int| before_rest.len() <= b < old_entries.len() && old_entries[b] == before_kept[a] && !drop_key(entry_key(old_entries[b]), game_id, rt, whole_game);
                            assert(rest@.len() <= b < n && old_entries[b] == kept@[a]);
                        }
                    }
                    assert forall|b: int| rest@.len() <= b < n && !drop_key(entry_key(#[trigger] old_entries[b]), game_id, rt, whole_game) implies exists|a: int| 0 <= a < kept@.len() && kept@[a] == old_entries[b] by {
                        if b == b0 {
                            assert(kept@[before_kept.len() as int] == old_entries[b]);
                        } else {
                            let a = choose|a: int| 0 <= a < before_kept.len() && before_kept[a] == old_entries[b];
                            assert(kept@[a] == old_entries[b]);
                        }
                    }
                }
            } else {
                proof {
                    assert forall|a: int| 0 <= a < kept@.len() implies #[trigger] kept_from(kept@[a], old_entries, rest@.len() as int, game_id, rt, whole_game) by {
                        assert(kept_from(before_kept[a], old_entries, before_rest.len() as int, game_id, rt, whole_game));
                            let b = choose|b: int| before_rest.len() <= b < old_entries.len() && old_entries[b] == before_kept[a] && !drop_key(entry_key(old_entries[b]), game_id, rt, whole_game);
                        assert(rest@.len() <= b < n && old_entries[b] == kept@[a]);
                    }
                }
            }
        }
        proof {
            let m = view_of(old_entries).restrict(kept_keys(game_id, rt, whole_game));
            let s = kept@;
            assert forall|j: int| 0 <= j < s.len() implies #[trigger] m.contains_key(entry_key(s[j])) && m[entry_key(s[j])] == s[j].notified_at by {
                assert(kept_from(s[j], old_entries, 0, game_id, rt, whole_game));
                let b = choose|b: int| 0 <= b < old_entries.len() && old_entries[b] == s[j] && !drop_key(entry_key(old_entries[b]), game_id, rt, whole_game);
                lemma_view_index(old_entries, b);
            }
            assert forall|k: CooldownKey| #[trigger] m.contains_key(k) implies exists|j: int| 0 <= j < s.len() && entry_key(s[j]) == k by {
                let b = choose|b: int| 0 <= b < n && entry_key(old_entries[b]) == k;
                let a = choose|a: int| 0 <= a < s.len() && s[a] == old_entries[b];
                assert(entry_key(s[a]) == k);
            }
            lemma_view_ext(s, m);
        }
        self.entries = kept;
    }

    /// Clears the cooldown entry for this (game, resource) pair.
    pub fn clear(&mut self, game_id: GameId, resource_type: &str)
        ensures
            final(self)@ == old(self)@.remove((game_id, resource_type@)),
    {
        self.drop_entries(game_id, resource_type, false);
        assert(self@ =~= old(self)@.remove((game_id, resource_type@)));
    }

    /// Clears the cooldown entries of every resource of one game.
    pub fn clear_for_game(&mut self, game_id: GameId)
        ensures
            final(self)@ == old(self)@.restrict(Set::new(|k: CooldownKey| k.0 != game_id)),
    {
        self.drop_entries(game_id, "", true);
        assert(self@ =~= old(self)@.restrict(Set::new(|k: CooldownKey| k.0 != game_id)));
    }

    /// Clears all cooldown entries.
    pub fn clear_all(&mut self)
        ensures
            final(self)@ == Map::<CooldownKey, i64>::empty(),
    {
        self.entries = Vec::new();
        assert(self@ =~= Map::<CooldownKey, i64>::empty());
    }

    /// Decides whether a notification should fire for this resource.
    ///
    /// Outside the notification window it returns `false` and forgets the
    /// pair's cooldown. In the window it returns `true` when the pair was
    /// never notified or its cooldown has passed; with a cooldown of zero
    /// minutes only one notification fires per window entry.
    pub fn should_notify(
        &mut self,
        game_id: GameId,
        resource_type: &str,
        config: &ResourceNotificationConfig,
        info: &ResourceInfo,
        now: i64,
    ) -> (r: bool)
        requires
            window_representable(*config, *info),
        ensures
            r == notify_decision(old(self)@, (game_id, resource_type@), *config, *info, now as int),
            final(self)@ == notify_update(old(self)@, (game_id, resource_type@), *config, *info, now as int),
    {
        if !is_in_window(config, info, now) {
            self.clear(game_id, resource_type);
            return false;
        }
        match self.last_notified(game_id, resource_type) {
            Some(last) => {
                if config.cooldown_minutes == 0 {
                    return false;
                }
                span(now, last) >= config.cooldown_minutes as i128 * 60
            },
            None => true,
        }
    }
}

impl Default for NotificationTracker {
    /// An empty tracker.
    fn default() -> (t: Self)
        ensures
            t@ == Map::<CooldownKey, i64>::empty(),
    {
        Self::new()
    }
}

/// Whether the window a config implies for a resource can be represented
/// (`should_notify` and `is_in_window` need it).
pub fn window_fits(config: &ResourceNotificationConfig, info: &ResourceInfo) -> (b: bool)
    ensures
        b == window_representable(*config, *info),
{
    match config.notify_at_value {
        Some(threshold) => match (info.max, info.regen_rate_seconds) {
            (Some(max), Some(rate)) => value_window(max, threshold, rate) <= 153722867280912,
            _ => true,
        },
        None => true,
    }
}

/// Once a pair was notified at `t`, a check in its window at `now` fires
/// exactly when the cooldown is not zero and has passed since `t`.
pub proof fn lemma_recorded_pair_waits_for_cooldown(
    m: Map<CooldownKey, i64>,
    key: CooldownKey,
    t: i64,
    config: ResourceNotificationConfig,
    info: ResourceInfo,
    now: int,
)
    requires
        in_window(config, info, now),
    ensures
        notify_decision(m.insert(key, t), key, config, info, now) == (config.cooldown_minutes != 0 && now
            - t >= config.cooldown_minutes * 60),
{
}

/// A pair never notified fires as soon as it is in its window.
pub proof fn lemma_first_check_in_window_fires(
    m: Map<CooldownKey, i64>,
    key: CooldownKey,
    config: ResourceNotificationConfig,
    info: ResourceInfo,
    now: int,
)
    requires
        !m.contains_key(key),
        in_window(config, info, now),
    ensures
        notify_decision(m, key, config, info, now),
{
}

/// Leaving the window forgets the pair: the next check in a window fires,
/// even with a cooldown of zero minutes.
pub proof fn lemma_leaving_window_resets(
    m: Map<CooldownKey, i64>,
    key: CooldownKey,
    config: ResourceNotificationConfig,
    info_out: ResourceInfo,
    now_out: int,
    later_config: ResourceNotificationConfig,
    info_in: ResourceInfo,
    now_in: int,
)
    requires
        !in_window(config, info_out, now_out),
        in_window(later_config, info_in, now_in),
    ensures
        notify_decision(
            notify_update(m, key, config, info_out, now_out),
            key,
            later_config,
            info_in,
            now_in,
        ),
{
}

/// A full (or ready) resource is always inside its window, whatever the
/// thresholds: every mode notifies once the resource is complete.
pub proof fn lemma_complete_is_in_window(config: ResourceNotificationConfig, info: ResourceInfo, now: int)
    requires
        info.is_complete,
    ensures
        in_window(config, info, now),
{
}

/// A check outside the window never fires.
pub proof fn lemma_outside_window_is_silent(
    m: Map<CooldownKey, i64>,
    key: CooldownKey,
    config: ResourceNotificationConfig,
    info: ResourceInfo,
    now: int,
)
    requires
        !in_window(config, info, now),
    ensures
        !notify_decision(m, key, config, info, now),
        !notify_update(m, key, config, info, now).contains_key(key),
{
}

/// A value clamped to the range of `u64`.
pub open spec fn clamp_u64(x: int) -> int {
    if x > u64::MAX { u64::MAX as int } else { x }
}

/// The estimated current value of a stamina resource at `now`: the maximum
/// once full; before that the maximum less the units still to accrue (the
/// remaining time in whole accrual steps, rounded up, times the units per
/// step), never below the polled value; the polled value when the maximum
/// or a positive rate is unknown.
pub open spec fn estimate(info: ResourceInfo, now: int) -> Option<u64> {
    match (info.max, info.regen_rate_seconds) {
        (Some(max), Some(rate)) => if rate == 0 {
            info.current
        } else if info.is_complete || now >= info.completion_at {
            Some(max)
        } else {
            let secs: int = info.completion_at - now;
            let steps: int = (secs + rate - 1) / (rate as int);
            let units: int = clamp_u64(
                steps * match info.regen_step_units {
                    Some(u) => u as int,
                    None => 1,
                },
            );
            let estimated: int = if max >= units { max - units } else { 0 };
            Some(
                match info.current {
                    Some(c) => if estimated >= c { estimated as u64 } else { c },
                    None => estimated as u64,
                },
            )
        },
        _ => info.current,
    }
}

/// Dividing rounding up: `(s + r - 1) / r` is the quotient, plus one when
/// the division leaves a remainder (which also bounds the quotient).
proof fn lemma_ceil_div(s: int, r: int)
    requires
        s > 0,
        r > 0,
    ensures
        (s + r - 1) / r == s / r + (if s % r == 0 { 0int } else { 1int }),
        s % r != 0 ==> 2 * (s / r) <= s,
{
    let q = s / r;
    let m = s % r;
    vstd::arithmetic::div_mod::lemma_fundamental_div_mod(s, r);
    assert(r * q == q * r) by (nonlinear_arith);
    if m == 0 {
        vstd::arithmetic::div_mod::lemma_fundamental_div_mod_converse(s + r - 1, r, q, r - 1);
    } else {
        assert((q + 1) * r == q * r + r) by (nonlinear_arith);
        vstd::arithmetic::div_mod::lemma_fundamental_div_mod_converse(s + r - 1, r, q + 1, m - 1);
        assert(r >= 2);
        assert(q >= 0) by {
            vstd::arithmetic::div_mod::lemma_div_pos_is_pos(s, r);
        }
        assert(2 * q <= s) by (nonlinear_arith)
            requires
                s == q * r + m,
                m >= 0,
                r >= 2,
                q >= 0,
        ;
    }
}

impl ResourceInfo {
    /// Estimates the current value from the time left to full and the
    /// accrual step, rather than the value polled at fetch time; falls back
    /// to the polled value when the maximum or rate is unknown.
    pub fn estimated_current(&self, now: i64) -> (r: Option<u64>)
        ensures
            r == estimate(*self, now as int),
    {
        let (max, rate) = match (self.max, self.regen_rate_seconds) {
            (Some(m), Some(r)) => {
                if r == 0 {
                    return self.current;
                }
                (m, r)
            },
            _ => {
                return self.current;
            },
        };
        if self.is_complete || now >= self.completion_at {
            return Some(max);
        }
        let secs: u64 = (self.completion_at as i128 - now as i128) as u64;
        let q = secs / rate;
        proof {
            lemma_ceil_div(secs as int, rate as int);
        }
        let steps: u64 = if secs % rate == 0 { q } else { q + 1 };
        let step_units: u64 = match self.regen_step_units {
            Some(u) => u,
            None => 1,
        };
        let units: u64 = match steps.checked_mul(step_units) {
            Some(v) => v,
            None => u64::MAX,
        };
        let estimated = max.saturating_sub(units);
        Some(
            match self.current {
                Some(c) => if estimated >= c { estimated } else { c },
                None => estimated,
            },
        )
    }

    /// The timing of a stamina resource.
    pub fn from_stamina(s: &StaminaResource) -> (r: Self)
        ensures
            r == (ResourceInfo {
                completion_at: s.full_at,
                is_complete: s.current >= s.max,
                current: Some(s.current as u64),
                max: Some(s.max as u64),
                regen_rate_seconds: Some(s.regen_rate_seconds as u64),
                regen_step_units: Some(s.regen_step_units as u64),
            }),
    {
        ResourceInfo {
            completion_at: s.full_at,
            is_complete: s.is_full(),
            current: Some(s.current as u64),
            max: Some(s.max as u64),
            regen_rate_seconds: Some(s.regen_rate_seconds as u64),
            regen_step_units: Some(s.regen_step_units as u64),
        }
    }

    /// The timing of a cooldown item.
    pub fn from_cooldown(c: &CooldownResource) -> (r: Self)
        ensures
            r == (ResourceInfo {
                completion_at: c.ready_at,
                is_complete: c.is_ready,
                current: None,
                max: None,
                regen_rate_seconds: None,
                regen_step_units: None,
            }),
    {
        ResourceInfo {
            completion_at: c.ready_at,
            is_complete: c.is_ready,
            current: None,
            max: None,
            regen_rate_seconds: None,
            regen_step_units: None,
        }
    }

    /// The timing of expeditions at `now`: complete once the earliest one has
    /// finished.
    pub fn from_expedition(e: &ExpeditionResource, now: i64) -> (r: Self)
        ensures
            r == (ResourceInfo {
                completion_at: e.earliest_finish_at,
                is_complete: e.earliest_finish_at <= now,
                current: None,
                max: None,
                regen_rate_seconds: None,
                regen_step_units: None,
            }),
    {
        ResourceInfo {
            completion_at: e.earliest_finish_at,
            is_complete: e.has_completed_at(now),
            current: None,
            max: None,
            regen_rate_seconds: None,
            regen_step_units: None,
        }
    }
}

/// The shape a resource's data has, chosen by its type tag.
#[derive(Debug, Clone, Copy, PartialEq, Eq, Structural)]
pub enum ResourceShape {
    /// A cooldown item (`parametric_transformer`).
    Cooldown,
    /// Expeditions (`expeditions`).
    Expedition,
    /// A stamina resource (every other tag).
    Stamina,
}

/// The shape a type tag's data is read as.
pub open spec fn shape_of(resource_type: Seq<char>) -> ResourceShape {
    if resource_type == "parametric_transformer"@ {
        ResourceShape::Cooldown
    } else if resource_type == "expeditions"@ {
        ResourceShape::Expedition
    } else {
        ResourceShape::Stamina
    }
}

/// The shape a type tag's data is read as.
pub fn resource_shape(resource_type: &str) -> (s: ResourceShape)
    ensures
        s == shape_of(resource_type@),
{
    if str_eq(resource_type, "parametric_transformer") {
        ResourceShape::Cooldown
    } else if str_eq(resource_type, "expeditions") {
        ResourceShape::Expedition
    } else {
        ResourceShape::Stamina
    }
}

/// A resource's data read in one of the shapes.
#[derive(Debug, Clone, Copy)]
pub enum ResourceData {
    /// A cooldown item.
    Cooldown(CooldownResource),
    /// Expeditions.
    Expedition(ExpeditionResource),
    /// A stamina resource.
    Stamina(StaminaResource),
}

/// The timing of a resource whose data was read in the shape its tag asks
/// for; none when the data could not be read that way.
pub open spec fn extracted(resource_type: Seq<char>, data: Option<ResourceData>, now: int) -> Option<ResourceInfo> {
    match (shape_of(resource_type), data) {
        (ResourceShape::Cooldown, Some(ResourceData::Cooldown(c))) => Some(ResourceInfo {
            completion_at: c.ready_at,
            is_complete: c.is_ready,
            current: None,
            max: None,
            regen_rate_seconds: None,
            regen_step_units: None,
        }),
        (ResourceShape::Expedition, Some(ResourceData::Expedition(e))) => Some(ResourceInfo {
            completion_at: e.earliest_finish_at,
            is_complete: e.earliest_finish_at <= now,
            current: None,
            max: None,
            regen_rate_seconds: None,
            regen_step_units: None,
        }),
        (ResourceShape::Stamina, Some(ResourceData::Stamina(s))) => Some(ResourceInfo {
            completion_at: s.full_at,
            is_complete: s.current >= s.max,
            current: Some(s.current as u64),
            max: Some(s.max as u64),
            regen_rate_seconds: Some(s.regen_rate_seconds as u64),
            regen_step_units: Some(s.regen_step_units as u64),
        }),
        _ => None,
    }
}

/// Extracts the completion timing of a resource from its data, read in the
/// shape its type tag asks for (`data` is `None` when it could not be).
pub fn extract_resource_info(resource_type: &str, data: Option<ResourceData>, now: i64) -> (r: Option<
    ResourceInfo,
>)
    ensures
        r == extracted(resource_type@, data, now as int),
{
    match (resource_shape(resource_type), data) {
        (ResourceShape::Cooldown, Some(ResourceData::Cooldown(c))) => Some(ResourceInfo::from_cooldown(&c)),
        (ResourceShape::Expedition, Some(ResourceData::Expedition(e))) => Some(
            ResourceInfo::from_expedition(&e, now),
        ),
        (ResourceShape::Stamina, Some(ResourceData::Stamina(s))) => Some(ResourceInfo::from_stamina(&s)),
        _ => None,
    }
}

/// The display name of a resource of a game; "Unknown Resource" for a
/// resource the game does not have.
pub open spec fn display_name_of(game_id: GameId, resource_type: Seq<char>) -> Seq<char> {
    match game_id {
        GameId::GenshinImpact => if resource_type == "resin"@ {
            "Original Resin"@
        } else if resource_type == "parametric_transformer"@ {
            "Parametric Transformer"@
        } else if resource_type == "realm_currency"@ {
            "Realm Currency"@
        } else if resource_type == "expeditions"@ {
            "Expeditions"@
        } else {
            "Unknown Resource"@
        },
        GameId::HonkaiStarRail => if resource_type == "trailblaze_power"@ {
            "Trailblaze Power"@
        } else {
            "Unknown Resource"@
        },
        GameId::ZenlessZoneZero => if resource_type == "battery"@ {
            "Battery"@
        } else {
            "Unknown Resource"@
        },
        GameId::WutheringWaves => if resource_type == "waveplates"@ {
            "Waveplates"@
        } else {
            "Unknown Resource"@
        },
    }
}

/// Maps a game's resource type tag to its display name.
pub fn resource_display_name(game_id: GameId, resource_type: &str) -> (s: &'static str)
    ensures
        s@ == display_name_of(game_id, resource_type@),
{
    match game_id {
        GameId::GenshinImpact => if str_eq(resource_type, "resin") {
            "Original Resin"
        } else if str_eq(resource_type, "parametric_transformer") {
            "Parametric Transformer"
        } else if str_eq(resource_type, "realm_currency") {
            "Realm Currency"
        } else if str_eq(resource_type, "expeditions") {
            "Expeditions"
        } else {
            "Unknown Resource"
        },
        GameId::HonkaiStarRail => if str_eq(resource_type, "trailblaze_power") {
            "Trailblaze Power"
        } else {
            "Unknown Resource"
        },
        GameId::ZenlessZoneZero => if str_eq(resource_type, "battery") {
            "Battery"
        } else {
            "Unknown Resource"
        },
        GameId::WutheringWaves => if str_eq(resource_type, "waveplates") {
            "Waveplates"
        } else {
            "Unknown Resource"
        },
    }
}

/// Whole minutes in a span of seconds, rounded toward zero.
pub open spec fn whole_minutes(secs: int) -> int {
    if secs >= 0 { secs / 60 } else { -((-secs) / 60) }
}

/// The body of a resource notification: how long it has been full, the
/// value it reached (threshold mode), or the minutes until full.
pub open spec fn notification_body_text(
    resource_name: Seq<char>,
    info: ResourceInfo,
    config: ResourceNotificationConfig,
    now: int,
) -> Seq<char> {
    if info.is_complete {
        let overdue = whole_minutes(now - info.completion_at);
        if overdue <= 0 {
            resource_name + " is full!"@
        } else {
            resource_name + " has been full for "@ + decimal(overdue) + " minutes"@
        }
    } else if config.notify_at_value is Some {
        match (info.current, info.max) {
            (Some(c), Some(m)) => resource_name + " has reached "@ + decimal(c as int) + "/"@ + decimal(
                m as int,
            ),
            _ => resource_name + " threshold reached"@,
        }
    } else {
        resource_name + " will be full in "@ + decimal(whole_minutes(info.completion_at - now))
            + " minutes"@
    }
}

fn minutes_between(later: i64, earlier: i64) -> (r: i64)
    ensures
        r == whole_minutes(later - earlier),
{
    let d: i128 = later as i128 - earlier as i128;
    let m: i128 = if d >= 0 { d / 60 } else { -((-d) / 60) };
    m as i64
}

/// Builds the body of a resource notification.
pub fn resource_notification_body(
    resource_name: &str,
    info: &ResourceInfo,
    config: &ResourceNotificationConfig,
    now: i64,
) -> (s: String)
    ensures
        s@ == notification_body_text(resource_name@, *info, *config, now as int),
{
    if info.is_complete {
        let overdue = minutes_between(now, info.completion_at);
        if overdue <= 0 {
            join2(resource_name, " is full!")
        } else {
            let n = i64_decimal(overdue);
            let a = join3(resource_name, " has been full for ", n.as_str());
            let r = join2(a.as_str(), " minutes");
            assert(r@ =~= notification_body_text(resource_name@, *info, *config, now as int));
            r
        }
    } else if config.notify_at_value.is_some() {
        match (info.current, info.max) {
            (Some(c), Some(m)) => {
                let cs = u64_decimal(c);
                let ms = u64_decimal(m);
                let a = join3(resource_name, " has reached ", cs.as_str());
                let r = join3(a.as_str(), "/", ms.as_str());
                assert(r@ =~= notification_body_text(resource_name@, *info, *config, now as int));
                r
            },
            _ => join2(resource_name, " threshold reached"),
        }
    } else {
        let mins = minutes_between(info.completion_at, now);
        let n = i64_decimal(mins);
        let a = join3(resource_name, " will be full in ", n.as_str());
        let r = join2(a.as_str(), " minutes");
        assert(r@ =~= notification_body_text(resource_name@, *info, *config, now as int));
        r
    }
}

/// The notification title: game and resource name.
pub open spec fn notification_title_text(game_name: Seq<char>, resource_name: Seq<char>) -> Seq<char> {
    game_name + " \u{2014} "@ + resource_name
}

/// Builds the notification title.
pub fn notification_title(game_name: &str, resource_name: &str) -> (s: String)
    ensures
        s@ == notification_title_text(game_name@, resource_name@),
{
    join3(game_name, " \u{2014} ", resource_name)
}

/// The settings for a resource type among a game's notification settings
/// (a later entry for the same type wins), when they exist and are enabled.
pub open spec fn enabled_setting(settings: Seq<(String, ResourceNotificationConfig)>, resource_type: Seq<char>) -> Option<
    ResourceNotificationConfig,
>
    decreases settings.len(),
{
    if settings.len() == 0 {
        None
    } else if settings.last().0@ == resource_type {
        if settings.last().1.enabled {
            Some(settings.last().1)
        } else {
            None
        }
    } else {
        enabled_setting(settings.drop_last(), resource_type)
    }
}

/// The enabled notification settings for a resource type, if any.
pub fn notification_setting(settings: &Vec<(String, ResourceNotificationConfig)>, resource_type: &str) -> (r: Option<
    ResourceNotificationConfig,
>)
    ensures
        r == enabled_setting(settings@, resource_type@),
{
    let mut i: usize = settings.len();
    assert(settings@.take(settings@.len() as int) =~= settings@);
    while i > 0
        invariant
            0 <= i <= settings@.len(),
            enabled_setting(settings@, resource_type@) == enabled_setting(settings@.take(i as int), resource_type@),
        decreases i,
    {
        proof {
            assert(settings@.take(i as int).drop_last() =~= settings@.take(i - 1));
            assert(settings@.take(i as int).last() == settings@[i - 1]);
        }
        if str_eq(settings[i - 1].0.as_str(), resource_type) {
            let c = settings[i - 1].1;
            return if c.enabled { Some(c) } else { None };
        }
        i -= 1;
    }
    proof {
        assert(settings@.take(0) =~= Seq::<(String, ResourceNotificationConfig)>::empty());
    }
    None
}

/// What a cached resource is notified with: its enabled settings and its
/// timing, when both exist.
pub open spec fn notifiable(
    settings: Seq<(String, ResourceNotificationConfig)>,
    resource_type: Seq<char>,
    data: Option<ResourceData>,
    now: int,
) -> Option<(ResourceNotificationConfig, ResourceInfo)> {
    match (enabled_setting(settings, resource_type), extracted(resource_type, data, now)) {
        (Some(c), Some(i)) => Some((c, i)),
        _ => None,
    }
}

/// Resolves a cached resource into its notification settings and timing;
/// none when the type has no enabled settings or its data cannot be read.
pub fn resolve_notifiable_resource(
    settings: &Vec<(String, ResourceNotificationConfig)>,
    resource_type: &str,
    data: Option<ResourceData>,
    now: i64,
) -> (r: Option<(ResourceNotificationConfig, ResourceInfo)>)
    ensures
        r == notifiable(settings@, resource_type@, data, now as int),
{
    let config = match notification_setting(settings, resource_type) {
        Some(c) => c,
        None => return None,
    };
    match extract_resource_info(resource_type, data, now) {
        Some(info) => Some((config, info)),
        None => None,
    }
}

/// The estimate never reads below the value polled at fetch time.
pub proof fn lemma_estimate_never_below_polled(info: ResourceInfo, now: int)
    requires
        info.current is Some,
        info.max matches Some(m) && info.current->0 <= m,
    ensures
        estimate(info, now) matches Some(v) && info.current->0 <= v,
{
}

/// Once full, or past the completion instant, the estimate is the maximum.
pub proof fn lemma_estimate_full_at_completion(info: ResourceInfo, now: int)
    requires
        info.max is Some,
        info.regen_rate_seconds matches Some(r) && r > 0,
        info.is_complete || now >= info.completion_at,
    ensures
        estimate(info, now) == Some(info.max->0),
{
}


/// The estimate never goes down as time passes (while the polled value is
/// within the maximum): each accrual step credits the resource, and nothing
/// takes it back.
pub proof fn lemma_estimate_advances_with_time(info: ResourceInfo, a: int, b: int)
    requires
        a <= b,
        info.max matches Some(m) && (info.current matches Some(c) ==> c <= m),
    ensures
        estimate(info, a) matches Some(x) ==> (estimate(info, b) matches Some(y) && x <= y),
{
    match (info.max, info.regen_rate_seconds) {
        (Some(max), Some(rate)) => {
            if rate != 0 && !info.is_complete && b < info.completion_at {
                let sa: int = info.completion_at - a;
                let sb: int = info.completion_at - b;
                let r: int = rate as int;
                vstd::arithmetic::div_mod::lemma_div_is_ordered(sb + r - 1, sa + r - 1, r);
                let ka: int = (sa + r - 1) / r;
                let kb: int = (sb + r - 1) / r;
                let u: int = match info.regen_step_units {
                    Some(v) => v as int,
                    None => 1,
                };
                vstd::arithmetic::div_mod::lemma_div_pos_is_pos(sb + r - 1, r);
                vstd::arithmetic::mul::lemma_mul_inequality(kb, ka, u);
            }
        },
        _ => {},
    }
}


/// A resource to check: its game, type tag, settings and timing.
pub type Candidate = (GameId, String, ResourceNotificationConfig, ResourceInfo);

/// The cooldown key of a candidate.
pub open spec fn candidate_key(c: Candidate) -> CooldownKey {
    (c.0, c.1@)
}

/// Checking the candidates in order against a cooldown map: the map left
/// afterwards, and the positions of the candidates that are due.
pub open spec fn run_checks(m: Map<CooldownKey, i64>, cands: Seq<Candidate>, now: int) -> (
    Map<CooldownKey, i64>,
    Seq<usize>,
)
    decreases cands.len(),
{
    if cands.len() == 0 {
        (m, Seq::empty())
    } else {
        let (before, due) = run_checks(m, cands.drop_last(), now);
        let c = cands.last();
        (
            notify_update(before, candidate_key(c), c.2, c.3, now),
            if notify_decision(before, candidate_key(c), c.2, c.3, now) {
                due.push((cands.len() - 1) as usize)
            } else {
                due
            },
        )
    }
}

/// Checks each candidate in turn (as `should_notify` does, a resource
/// outside its window forgets its cooldown) and returns the positions of
/// those due for a notification, in order.
pub fn select_due(tracker: &mut NotificationTracker, candidates: &Vec<Candidate>, now: i64) -> (due: Vec<usize>)
    requires
        forall|i: int| 0 <= i < candidates@.len() ==> window_representable(
            #[trigger] candidates@[i].2,
            candidates@[i].3,
        ),
    ensures
        (final(tracker)@, due@) == run_checks(old(tracker)@, candidates@, now as int),
{
    let ghost m0 = tracker@;
    let mut due: Vec<usize> = Vec::new();
    let mut i: usize = 0;
    assert(candidates@.take(0) =~= Seq::<Candidate>::empty());
    while i < candidates.len()
        invariant
            0 <= i <= candidates@.len(),
            forall|j: int| 0 <= j < candidates@.len() ==> window_representable(
                #[trigger] candidates@[j].2,
                candidates@[j].3,
            ),
            (tracker@, due@) == run_checks(m0, candidates@.take(i as int), now as int),
        decreases candidates@.len() - i,
    {
        let c = &candidates[i];
        proof {
            assert(candidates@.take(i + 1).drop_last() =~= candidates@.take(i as int));
            assert(candidates@.take(i + 1).last() == candidates@[i as int]);
            assert(window_representable(candidates@[i as int].2, candidates@[i as int].3));
        }
        let fire = tracker.should_notify(c.0, c.1.as_str(), &c.2, &c.3, now);
        if fire {
            due.push(i);
        }
        i += 1;
    }
    assert(candidates@.take(candidates@.len() as int) =~= candidates@);
    due
}

} // verus!
