use chrono::{Datelike, FixedOffset, Utc};
use storekeeper::daily_reward::{ClaimResult, DailyReward, DailyRewardInfo, DailyRewardStatus};

#[test]
fn test_daily_reward_info_new() {
    let info = DailyRewardInfo::new(true, 15);
    assert!(info.is_signed, "is_signed should be true");
    assert_eq!(info.total_sign_day, 15, "total_sign_day should be 15");
}

#[test]
fn test_daily_reward_info_not_signed() {
    let info = DailyRewardInfo::new(false, 10);
    assert!(!info.is_signed, "is_signed should be false");
    assert_eq!(info.total_sign_day, 10);
}

#[test]
fn test_missed_rewards_calculation() {
    let utc8 = FixedOffset::east_opt(8 * 3600).expect("UTC+8 is valid");
    let now = Utc::now().with_timezone(&utc8);
    let current_day = now.day();

    let info = DailyRewardInfo::new(true, current_day);
    assert_eq!(info.missed_rewards(), 0, "Should have 0 missed rewards when signed all days");

    let info = DailyRewardInfo::new(false, 0);
    assert_eq!(info.missed_rewards(), current_day, "Should have {current_day} missed rewards when signed 0 days");

    if current_day >= 2 {
        let half_days = current_day / 2;
        let info = DailyRewardInfo::new(true, half_days);
        assert_eq!(info.missed_rewards(), current_day - half_days, "Should calculate correct missed rewards");
    }
}

#[test]
fn test_missed_rewards_saturating_sub() {
    let info = DailyRewardInfo::new(true, 50);
    let missed = info.missed_rewards();
    assert!(missed <= 31, "missed_rewards should not panic and should be bounded");
}

#[test]
fn missed_rewards_on_a_given_day() {
    let info = DailyRewardInfo::new(true, 10);
    assert_eq!(info.missed_rewards_on(15), 5);
    assert_eq!(info.missed_rewards_on(10), 0);
    assert_eq!(info.missed_rewards_on(3), 0);
}

#[test]
fn test_daily_reward_new() {
    let reward = DailyReward::new("Primogems", 60, "https://example.com/primogem.png");
    assert_eq!(reward.name, "Primogems");
    assert_eq!(reward.amount, 60);
    assert_eq!(reward.icon, "https://example.com/primogem.png");
}

#[test]
fn test_daily_reward_new_with_string() {
    let name = String::from("Mora");
    let icon = String::from("https://example.com/mora.png");
    let reward = DailyReward::new(&name, 10000, &icon);
    assert_eq!(reward.name, "Mora");
    assert_eq!(reward.amount, 10000);
}

#[test]
fn test_claim_result_success() {
    let reward = DailyReward::new("Primogems", 60, "icon.png");
    let info = DailyRewardInfo::new(true, 15);
    let result = ClaimResult::success(reward, info);
    assert!(result.success, "success flag should be true");
    assert!(result.reward.is_some(), "reward should be present");
    assert!(result.message.is_none(), "message should be None on success");
    assert!(result.info.is_signed, "info should show signed");
}

#[test]
fn test_claim_result_already_claimed() {
    let reward = DailyReward::new("Primogems", 60, "icon.png");
    let info = DailyRewardInfo::new(true, 15);
    let result = ClaimResult::already_claimed(Some(reward), info);
    assert!(!result.success, "success flag should be false");
    assert!(result.reward.is_some(), "reward should be present (what would have been claimed)");
    assert!(result.message.is_some(), "message should be present");
    assert_eq!(result.message.as_deref(), Some("Already claimed today"), "message should indicate already claimed");
}

#[test]
fn test_claim_result_already_claimed_no_reward() {
    let info = DailyRewardInfo::new(true, 15);
    let result = ClaimResult::already_claimed(None, info);
    assert!(!result.success);
    assert!(result.reward.is_none(), "reward can be None");
    assert!(result.message.is_some());
}

#[test]
fn test_claim_result_error() {
    let info = DailyRewardInfo::new(false, 10);
    let result = ClaimResult::error("API rate limited", info);
    assert!(!result.success, "success flag should be false on error");
    assert!(result.reward.is_none(), "reward should be None on error");
    assert!(result.message.is_some(), "message should be present");
    assert_eq!(result.message.as_deref(), Some("API rate limited"), "message should contain error text");
}

#[test]
fn test_claim_result_error_with_string() {
    let info = DailyRewardInfo::new(false, 10);
    let error_msg = String::from("Network error");
    let result = ClaimResult::error(&error_msg, info);
    assert_eq!(result.message.as_deref(), Some("Network error"));
}

#[test]
fn test_daily_reward_status_new() {
    let info = DailyRewardInfo::new(false, 10);
    let today_reward = Some(DailyReward::new("Primogems", 60, "icon.png"));
    let monthly_rewards = vec![
        DailyReward::new("Primogems", 60, "icon.png"),
        DailyReward::new("Mora", 10000, "mora.png"),
    ];
    let status = DailyRewardStatus::new(info.clone(), today_reward, monthly_rewards);
    assert!(!status.info.is_signed);
    assert_eq!(status.info.total_sign_day, 10);
    assert!(status.today_reward.is_some());
    assert_eq!(status.monthly_rewards.len(), 2);
}

#[test]
fn test_daily_reward_status_no_today_reward() {
    let info = DailyRewardInfo::new(true, 15);
    let status = DailyRewardStatus::new(info, None, vec![]);
    assert!(status.info.is_signed);
    assert!(status.today_reward.is_none());
    assert!(status.monthly_rewards.is_empty());
}

#[test]
fn duplicate_copies_every_field() {
    let reward = DailyReward::new("Mora", 10000, "mora.png");
    let copy = reward.duplicate();
    assert_eq!(copy.name, "Mora");
    assert_eq!(copy.amount, 10000);
    assert_eq!(copy.icon, "mora.png");
}
