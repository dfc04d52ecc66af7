//! The events the backend emits to the frontend.

use vstd::prelude::*;

verus! {

/// All events emitted from the backend to the frontend.
#[derive(Debug, Clone, Copy, PartialEq, Eq, Structural)]
pub enum AppEvent {
    /// All resources have been fetched and updated.
    ResourcesUpdated,
    /// A manual refresh has started.
    RefreshStarted,
    /// A single game's resources have been fetched.
    GameResourceUpdated,
    /// Daily rewards have been claimed.
    DailyRewardClaimed,
}

/// The event name the frontend listens for.
pub open spec fn event_name(e: AppEvent) -> Seq<char> {
    match e {
        AppEvent::ResourcesUpdated => "resources-updated"@,
        AppEvent::RefreshStarted => "refresh-started"@,
        AppEvent::GameResourceUpdated => "game-resource-updated"@,
        AppEvent::DailyRewardClaimed => "daily-reward-claimed"@,
    }
}

/// A name in lowercase kebab-case: lowercase ASCII letters and hyphens only.
pub open spec fn is_kebab_case(s: Seq<char>) -> bool {
    forall|i: int| 0 <= i < s.len() ==> ('a' <= #[trigger] s[i] <= 'z' || s[i] == '-')
}

impl AppEvent {
    /// Returns the event name used for emission.
    pub fn as_str(self) -> (s: &'static str)
        ensures
            s@ == event_name(self),
    {
        match self {
            AppEvent::ResourcesUpdated => "resources-updated",
            AppEvent::RefreshStarted => "refresh-started",
            AppEvent::GameResourceUpdated => "game-resource-updated",
            AppEvent::DailyRewardClaimed => "daily-reward-claimed",
        }
    }
}

/// Every event name is lowercase kebab-case, and no two events share a name.
pub proof fn lemma_event_names(e: AppEvent, f: AppEvent)
    ensures
        is_kebab_case(event_name(e)),
        e != f ==> event_name(e) != event_name(f),
{
    reveal_strlit("resources-updated");
    reveal_strlit("refresh-started");
    reveal_strlit("game-resource-updated");
    reveal_strlit("daily-reward-claimed");
    assert(event_name(AppEvent::ResourcesUpdated).len() == 17);
    assert(event_name(AppEvent::RefreshStarted).len() == 15);
    assert(event_name(AppEvent::GameResourceUpdated).len() == 21);
    assert(event_name(AppEvent::DailyRewardClaimed).len() == 20);
}

} // verus!
