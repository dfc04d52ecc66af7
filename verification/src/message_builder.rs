//! Localized notification texts: resource names and notification bodies.

use vstd::prelude::*;
use crate::i18n::{duration_text, format_duration, formatted_text, lookup_text, MessageStore, Messages, Value};
use crate::notification::{estimate, whole_minutes, ResourceInfo};
use crate::text::{decimal, join2, join3, str_eq, u64_decimal};
use crate::game_id::{game_short_id, GameId};

verus! {

/// The text a store gives for a key: the message, or the key.
pub open spec fn store_text(active: Option<Messages>, key: Seq<char>) -> Seq<char> {
    match active {
        Some(m) => lookup_text(m.strings@, key),
        None => key,
    }
}

/// The formatted text a store gives for a key.
pub open spec fn store_formatted<'a>(active: Option<Messages>, key: Seq<char>, args: Seq<(&'a str, Value)>) -> Seq<char> {
    match active {
        Some(m) => formatted_text(m, key, args),
        None => key,
    }
}

/// A resource's localized name: the message of `resource_{type}`, or the
/// message of `resource_unknown` when there is none.
pub open spec fn localized_resource_name(active: Option<Messages>, resource_type: Seq<char>) -> Seq<char> {
    let key = "resource_"@ + resource_type;
    let found = store_text(active, key);
    if found == key {
        store_text(active, "resource_unknown"@)
    } else {
        found
    }
}

/// Maps a resource type tag to its localized display name.
pub fn resource_display_name(messages: &MessageStore, resource_type: &str) -> (s: String)
    ensures
        s@ == localized_resource_name(messages.active(), resource_type@),
{
    let key = join2("resource_", resource_type);
    let result = messages.t(key.as_str());
    if str_eq(result.as_str(), key.as_str()) {
        messages.t("resource_unknown")
    } else {
        result
    }
}

/// A game's localized name: the message of `game_{short id}_name`.
pub open spec fn localized_game_name(active: Option<Messages>, game_id: GameId) -> Seq<char> {
    store_text(active, "game_"@ + game_short_id(game_id) + "_name"@)
}

/// Returns the localized display name of a game.
pub fn game_display_name(messages: &MessageStore, game_id: GameId) -> (s: String)
    ensures
        s@ == localized_game_name(messages.active(), game_id),
{
    let key = join3("game_", game_id.short_id(), "_name");
    messages.t(key.as_str())
}

/// An argument named `name` with the text `text`.
pub open spec fn text_arg<'a>(a: (&'a str, Value), name: Seq<char>, text: Seq<char>) -> bool {
    &&& a.0@ == name
    &&& a.1 matches Value::String(s) && s@ == text
}

/// The text of an optional number ("?" when unknown).
pub open spec fn number_or_unknown(n: Option<u64>) -> Seq<char> {
    match n {
        Some(v) => decimal(v as int),
        None => "?"@,
    }
}

fn number_text(n: Option<u64>) -> (s: String)
    ensures
        s@ == number_or_unknown(n),
{
    match n {
        Some(v) => u64_decimal(v),
        None => "?".to_owned(),
    }
}

/// The body of a resource notification: for a stamina resource (one with a
/// maximum) "full" or its progress, estimated value over maximum, time left
/// and completion time; for a cooldown "complete" or the time left and
/// completion time. `local_time` is the completion time as the user's clock
/// shows it.
pub open spec fn body_text<'a>(
    active: Option<Messages>,
    info: ResourceInfo,
    now: int,
    local_time: Seq<char>,
    args: Seq<(&'a str, Value)>,
) -> bool {
    let duration = duration_text(active, whole_minutes(info.completion_at - now) as i64);
    if info.max is Some {
        if info.is_complete {
            false
        } else {
            &&& args.len() == 4
            &&& text_arg(args[0], "current"@, number_or_unknown(estimate(info, now)))
            &&& text_arg(args[1], "max"@, number_or_unknown(info.max))
            &&& text_arg(args[2], "duration"@, duration)
            &&& text_arg(args[3], "local_time"@, local_time)
        }
    } else {
        if info.is_complete {
            false
        } else {
            &&& args.len() == 2
            &&& text_arg(args[0], "duration"@, duration)
            &&& text_arg(args[1], "local_time"@, local_time)
        }
    }
}

fn minutes_left(completion_at: i64, now: i64) -> (r: i64)
    ensures
        r == whole_minutes(completion_at - now),
{
    let d: i128 = completion_at as i128 - now as i128;
    let m: i128 = if d >= 0 { d / 60 } else { -((-d) / 60) };
    m as i64
}

/// Builds the localized body text of a resource notification.
pub fn build_notification_body(messages: &MessageStore, info: &ResourceInfo, now: i64, local_time: &str) -> (s: String)
    ensures
        info.max is Some && info.is_complete ==> s@ == store_text(messages.active(), "notification_stamina_full"@),
        info.max is None && info.is_complete ==> s@ == store_text(messages.active(), "notification_cooldown_complete"@),
        info.max is Some && !info.is_complete ==> exists|args: Seq<(&str, Value)>| body_text(
            messages.active(),
            *info,
            now as int,
            local_time@,
            args,
        ) && s@ == store_formatted(messages.active(), "notification_stamina_progress"@, args),
        info.max is None && !info.is_complete ==> exists|args: Seq<(&str, Value)>| body_text(
            messages.active(),
            *info,
            now as int,
            local_time@,
            args,
        ) && s@ == store_formatted(messages.active(), "notification_cooldown_remaining"@, args),
{
    if info.max.is_some() {
        if info.is_complete {
            return messages.t("notification_stamina_full");
        }
        let current = number_text(info.estimated_current(now));
        let max = number_text(info.max);
        let duration = format_duration(messages, minutes_left(info.completion_at, now));
        let args = vec![
            ("current", Value::String(current)),
            ("max", Value::String(max)),
            ("duration", Value::String(duration)),
            ("local_time", Value::String(local_time.to_owned())),
        ];
        let s = messages.t_args("notification_stamina_progress", args.as_slice());
        assert(body_text(messages.active(), *info, now as int, local_time@, args@) && s@ == store_formatted(
            messages.active(),
            "notification_stamina_progress"@,
            args@,
        ));
        s
    } else {
        if info.is_complete {
            return messages.t("notification_cooldown_complete");
        }
        let duration = format_duration(messages, minutes_left(info.completion_at, now));
        let args = vec![
            ("duration", Value::String(duration)),
            ("local_time", Value::String(local_time.to_owned())),
        ];
        let s = messages.t_args("notification_cooldown_remaining", args.as_slice());
        assert(body_text(messages.active(), *info, now as int, local_time@, args@) && s@ == store_formatted(
            messages.active(),
            "notification_cooldown_remaining"@,
            args@,
        ));
        s
    }
}

} // verus!
