use storekeeper::events::AppEvent;

const EVENTS: [AppEvent; 4] = [
    AppEvent::ResourcesUpdated,
    AppEvent::RefreshStarted,
    AppEvent::GameResourceUpdated,
    AppEvent::DailyRewardClaimed,
];

#[test]
fn event_resources_updated() {
    assert_eq!(AppEvent::ResourcesUpdated.as_str(), "resources-updated");
}

#[test]
fn event_refresh_started() {
    assert_eq!(AppEvent::RefreshStarted.as_str(), "refresh-started");
}

#[test]
fn event_game_resource_updated() {
    assert_eq!(AppEvent::GameResourceUpdated.as_str(), "game-resource-updated");
}

#[test]
fn event_daily_reward_claimed() {
    assert_eq!(AppEvent::DailyRewardClaimed.as_str(), "daily-reward-claimed");
}

#[test]
fn all_events_are_kebab_case() {
    for event in EVENTS {
        let s = event.as_str();
        assert!(
            !s.contains('_') && !s.contains(' ') && s == s.to_lowercase(),
            "Event {s:?} should be lowercase kebab-case"
        );
    }
}

#[test]
fn event_names_are_distinct() {
    for (i, a) in EVENTS.iter().enumerate() {
        for b in EVENTS.iter().skip(i + 1) {
            assert_ne!(a.as_str(), b.as_str());
        }
    }
}
