use storekeeper::claim_time::ClaimTime;
use storekeeper::scheduled_claim::{calculate_next_claim, claim_attempt_outcome, summarize_round, ClaimAttempt};
use std::ops::ControlFlow;
use storekeeper::client::error::ClientError;
use storekeeper::daily_reward::{ClaimResult, DailyReward, DailyRewardInfo};
use storekeeper::game_id::GameId;
use storekeeper::hoyolab::error::Error as HoyolabError;
use storekeeper::scheduled_claim::{
    ensure_claim_registered, handle_wake_reason, is_recoverable, select_wake, ClaimWake, PostWake, RetryQueue,
    WakeAction, WakeKind, WakeReason, CLAIM_RETRY_DELAY_SECONDS, MAX_CLAIM_RETRIES,
};

fn reward() -> DailyReward {
    DailyReward::new("Primogems", 60, "primogem.png")
}

/// Seconds since the epoch of a few fixed UTC instants.
const T_22_00_10: i64 = 1787868010; // 2026-08-27T22:00:10Z
const T_22_05_10: i64 = 1787868310; // 2026-08-27T22:05:10Z
const T_22_10_00: i64 = 1787868600; // 2026-08-27T22:10:00Z
const T_22_10_10: i64 = 1787868610; // 2026-08-27T22:10:10Z
const T_NEXT_16_00: i64 = 1787932800; // 2026-08-28T16:00:00Z

const GENSHIN: GameId = GameId::GenshinImpact;
const HSR: GameId = GameId::HonkaiStarRail;

#[test]
fn ensure_claim_registered_accepts_a_signed_reward() {
    let result = ClaimResult::success(reward(), DailyRewardInfo::new(true, 1));
    assert!(ensure_claim_registered(&result).is_ok(), "a signed reward is a registered claim");
}

#[test]
fn ensure_claim_registered_accepts_a_claim_whose_reward_name_is_missing() {
    let result = ClaimResult::error("Claim succeeded but reward details unavailable", DailyRewardInfo::new(true, 1));
    assert!(
        ensure_claim_registered(&result).is_ok(),
        "an unnamed reward must still emit and refresh, not read as a prior claim"
    );
}

#[test]
fn ensure_claim_registered_rejects_success_over_an_unsigned_reward() {
    let result = ClaimResult::success(reward(), DailyRewardInfo::new(false, 0));
    assert!(
        ensure_claim_registered(&result).is_err(),
        "a success flag over an unsigned reward must not read as a claim"
    );
}

#[test]
fn ensure_claim_registered_rejects_an_error_result() {
    let result = ClaimResult::error("boom", DailyRewardInfo::new(false, 0));
    assert!(ensure_claim_registered(&result).is_err(), "an error result must not read as a claim");
}

#[test]
fn ensure_claim_registered_rejects_a_prior_claim_that_reads_unsigned() {
    let result = ClaimResult::already_claimed(Some(reward()), DailyRewardInfo::new(false, 0));
    assert!(ensure_claim_registered(&result).is_err(), "a contradictory response must not read as a claim");
}

#[test]
fn ensure_claim_registered_names_the_response_message() {
    let result = ClaimResult::error("boom", DailyRewardInfo::new(false, 0));
    assert_eq!(ensure_claim_registered(&result), Err("claim did not register: boom".to_string()));
    let result = ClaimResult::success(reward(), DailyRewardInfo::new(false, 0));
    assert_eq!(ensure_claim_registered(&result), Err("claim did not register: no message".to_string()));
}

#[test]
fn handle_wake_reason_cancelled_breaks() {
    assert_eq!(handle_wake_reason(&WakeReason::Cancelled), ControlFlow::Break(()));
}

#[test]
fn handle_wake_reason_config_changed_reruns_startup() {
    assert_eq!(handle_wake_reason(&WakeReason::ConfigChanged), ControlFlow::Continue(PostWake::Rerun));
}

#[test]
fn handle_wake_reason_timer_expired_resumes() {
    assert_eq!(handle_wake_reason(&WakeReason::TimerExpired), ControlFlow::Continue(PostWake::Resume));
}

#[test]
fn is_recoverable_reads_a_throttle_through_the_boxed_chain() {
    let error = HoyolabError::RateLimited {
        retcode: -1004,
        message: "Too many attempts. Please try again later.".to_string(),
    };
    assert!(is_recoverable(Some(&error)), "a wrapped throttle is recoverable");
}

#[test]
fn is_recoverable_rejects_a_bad_cookie_through_the_boxed_chain() {
    let error = HoyolabError::Client(ClientError::api_error(-100, "not logged in"));
    assert!(!is_recoverable(Some(&error)), "a wrapped cookie error is not recoverable");
}

#[test]
fn is_recoverable_requeues_a_failure_carrying_no_client_error() {
    assert!(is_recoverable(None), "a failure without a HoYoLab error is recoverable");
}

#[test]
fn record_schedules_the_failed_games_after_the_retry_delay() {
    let now = T_22_00_10;
    let mut queue = RetryQueue::default();
    queue.record(&[GENSHIN, HSR], &[GENSHIN], now);
    let (due, games) = queue.pending().expect("a recorded failure is pending");
    assert_eq!(due, T_22_10_10);
    assert_eq!(games, vec![GENSHIN]);
}

#[test]
fn record_drops_a_game_that_spent_every_retry() {
    let mut now = T_22_00_10;
    let mut queue = RetryQueue::default();
    for _ in 0..=MAX_CLAIM_RETRIES {
        queue.record(&[GENSHIN], &[GENSHIN], now);
        now = now.checked_add(CLAIM_RETRY_DELAY_SECONDS).expect("the retry delay stays in range");
    }
    assert!(queue.pending().is_none(), "a game must stop retrying after {MAX_CLAIM_RETRIES} attempts");
}

#[test]
fn record_leaves_a_game_the_round_did_not_attempt() {
    let now = T_22_00_10;
    let mut queue = RetryQueue::default();
    queue.record(&[GENSHIN], &[GENSHIN], now);
    queue.record(&[HSR], &[], now);
    let (_, games) = queue.pending().expect("a game outside the round stays queued");
    assert_eq!(games, vec![GENSHIN]);
}

#[test]
fn record_keeps_the_earliest_due_instant() {
    let mut queue = RetryQueue::default();
    queue.record(&[GENSHIN], &[GENSHIN], T_22_00_10);
    queue.record(&[HSR], &[HSR], T_22_05_10);
    let (due, _) = queue.pending().expect("both games are queued");
    assert_eq!(due, T_22_10_10, "a later failure must not push an already-queued game back");
}

#[test]
fn record_drops_an_attempted_game_that_stopped_failing() {
    let now = T_22_00_10;
    let mut queue = RetryQueue::default();
    queue.record(&[GENSHIN, HSR], &[GENSHIN, HSR], now);
    queue.record(&[GENSHIN, HSR], &[GENSHIN], now);
    let (_, games) = queue.pending().expect("the still-failing game is pending");
    assert_eq!(games, vec![GENSHIN]);
}

#[test]
fn clear_games_restores_the_full_retry_budget() {
    let now = T_22_00_10;
    let mut queue = RetryQueue::default();
    for _ in 0..MAX_CLAIM_RETRIES {
        queue.record(&[GENSHIN], &[GENSHIN], now);
    }
    queue.clear_games(&[GENSHIN]);
    for _ in 0..MAX_CLAIM_RETRIES {
        queue.record(&[GENSHIN], &[GENSHIN], now);
    }
    assert!(queue.pending().is_some(), "a daily claim must restore the game's full retry budget");
}

#[test]
fn clear_games_leaves_a_game_the_daily_claim_does_not_cover() {
    let now = T_22_00_10;
    let mut queue = RetryQueue::default();
    queue.record(&[GENSHIN, HSR], &[GENSHIN, HSR], now);
    queue.clear_games(&[HSR]);
    let (_, games) = queue.pending().expect("a game outside the cleared set stays queued");
    assert_eq!(games, vec![GENSHIN]);
}

#[test]
fn select_wake_prefers_whichever_claim_comes_first() {
    let early = T_22_10_00;
    let late = T_NEXT_16_00;
    let daily_games = vec![HSR];
    let retry_games = vec![GENSHIN];
    for (daily_at, retry_at, expected_kind, expected_target) in [
        (Some(late), Some(early), Some(WakeKind::Retry), Some(early)),
        (Some(early), Some(late), Some(WakeKind::Daily), Some(early)),
        (Some(late), None, Some(WakeKind::Daily), Some(late)),
        (None, Some(early), Some(WakeKind::Retry), Some(early)),
        (None, None, None, None),
    ] {
        let selected = select_wake(
            daily_at.map(|target| (target, daily_games.clone())),
            retry_at.map(|target| (target, retry_games.clone())),
        );
        assert_eq!(
            selected.as_ref().map(|wake| &wake.kind),
            expected_kind.as_ref(),
            "daily at {daily_at:?} against retry at {retry_at:?}"
        );
        assert_eq!(
            selected.map(|wake| wake.target),
            expected_target,
            "daily at {daily_at:?} against retry at {retry_at:?}"
        );
    }
}

#[test]
fn select_wake_breaks_a_tie_in_favour_of_the_daily_claim() {
    let target = T_22_10_00;
    let selected = select_wake(Some((target, vec![HSR])), Some((target, vec![GENSHIN])))
        .expect("a tie selects the daily claim");
    assert_eq!(selected.kind, WakeKind::Daily);
    assert_eq!(selected.games, vec![HSR]);
}

#[test]
fn a_new_queue_has_nothing_pending() {
    assert!(RetryQueue::new().pending().is_none());
    assert!(RetryQueue::default().pending().is_none());
}

#[test]
fn pending_lists_queued_games_in_game_order() {
    let mut queue = RetryQueue::new();
    queue.record(&[HSR, GENSHIN], &[HSR, GENSHIN], T_22_00_10);
    let (due, games) = queue.pending().expect("both are queued");
    assert_eq!(due, T_22_10_10);
    assert_eq!(games, vec![GENSHIN, HSR]);
}

#[test]
fn calculate_next_claim_groups_the_games_due_first() {
    // 2026-01-01T00:00:00Z.
    let now: i64 = 1767225600;
    let early = ClaimTime::from_utc8_str("08:30").expect("valid");
    let entries = [
        (GENSHIN, None),
        (HSR, Some(early)),
        (GameId::ZenlessZoneZero, Some(early)),
    ];
    let (due, games) = calculate_next_claim(&entries, now).expect("entries are configured");
    assert_eq!(due, now + 30 * 60);
    assert_eq!(games, vec![HSR, GameId::ZenlessZoneZero]);
    assert!(calculate_next_claim(&[], now).is_none());
    let (due, games) = calculate_next_claim(&[(GENSHIN, None)], now).expect("one entry");
    assert_eq!(due, now + 16 * 3600);
    assert_eq!(games, vec![GENSHIN]);
}

#[test]
fn summarize_round_sorts_each_outcome() {
    let outcomes = vec![
        (GENSHIN, ClaimAttempt::Claimed),
        (HSR, ClaimAttempt::Failed { recoverable: true }),
        (GameId::ZenlessZoneZero, ClaimAttempt::Failed { recoverable: false }),
        (GameId::WutheringWaves, ClaimAttempt::AlreadyClaimed),
    ];
    let round = summarize_round(&outcomes);
    assert_eq!(round.attempted, vec![GENSHIN, HSR, GameId::ZenlessZoneZero, GameId::WutheringWaves]);
    assert_eq!(round.failed, vec![HSR]);
    assert_eq!(round.claimed, vec![GENSHIN]);
}

#[test]
fn claim_attempt_outcome_reads_status_then_registration() {
    assert_eq!(claim_attempt_outcome(true, Ok(())), ClaimAttempt::AlreadyClaimed);
    assert_eq!(claim_attempt_outcome(true, Err(false)), ClaimAttempt::AlreadyClaimed);
    assert_eq!(claim_attempt_outcome(false, Ok(())), ClaimAttempt::Claimed);
    assert_eq!(claim_attempt_outcome(false, Err(true)), ClaimAttempt::Failed { recoverable: true });
    assert_eq!(claim_attempt_outcome(false, Err(false)), ClaimAttempt::Failed { recoverable: false });
}

#[test]
fn after_wake_stops_reruns_or_claims_the_wake_games() {
    let now = T_22_00_10;
    let wake = |kind| ClaimWake { kind, target: now, games: vec![GENSHIN] };
    let mut queue = RetryQueue::default();
    queue.record(&[GENSHIN, HSR], &[GENSHIN, HSR], now);

    assert_eq!(queue.after_wake(wake(WakeKind::Daily), WakeReason::Cancelled), WakeAction::Stop);
    assert_eq!(queue.after_wake(wake(WakeKind::Daily), WakeReason::ConfigChanged), WakeAction::ClaimAll);
    assert_eq!(queue.pending().expect("nothing was cleared").1, vec![GENSHIN, HSR]);

    assert_eq!(queue.after_wake(wake(WakeKind::Retry), WakeReason::TimerExpired), WakeAction::Claim(vec![GENSHIN]));
    assert_eq!(queue.pending().expect("a retry keeps the queue").1, vec![GENSHIN, HSR]);

    assert_eq!(queue.after_wake(wake(WakeKind::Daily), WakeReason::TimerExpired), WakeAction::Claim(vec![GENSHIN]));
    assert_eq!(queue.pending().expect("the other game stays queued").1, vec![HSR]);
}
