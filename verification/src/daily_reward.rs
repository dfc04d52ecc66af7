//! Daily check-in reward records for the HoYoLab games.

use vstd::prelude::*;
use crate::clock::utc8_day_of_month;

verus! {

/// Information about the current daily reward status.
#[derive(Debug, Clone, Copy, PartialEq, Eq, Structural)]
pub struct DailyRewardInfo {
    /// Whether today's reward has already been claimed.
    pub is_signed: bool,
    /// Total number of days signed in this month.
    pub total_sign_day: u32,
}

/// Rewards missed this month when today is `day` of the month (never
/// negative).
pub open spec fn missed_on(day: u32, total_sign_day: u32) -> u32 {
    if day >= total_sign_day { (day - total_sign_day) as u32 } else { 0 }
}

impl DailyRewardInfo {
    /// Creates a new `DailyRewardInfo`.
    pub fn new(is_signed: bool, total_sign_day: u32) -> (r: Self)
        ensures
            r == (DailyRewardInfo { is_signed, total_sign_day }),
    {
        DailyRewardInfo { is_signed, total_sign_day }
    }

    /// Rewards missed this month when today is `day` of the month.
    pub fn missed_rewards_on(&self, day: u32) -> (n: u32)
        ensures
            n == missed_on(day, self.total_sign_day),
    {
        day.saturating_sub(self.total_sign_day)
    }

    /// Rewards missed this month, by today's day of the month in UTC+8 (the
    /// timezone the rewards reset in).
    pub fn missed_rewards(&self) -> (n: u32)
        ensures
            exists|day: u32|
                1 <= day <= 31 && n == #[trigger] missed_on(day, self.total_sign_day),
    {
        match utc8_day_of_month() {
            Some(day) => {
                let n = self.missed_rewards_on(day);
                assert(1 <= day <= 31 && n == missed_on(day, self.total_sign_day));
                n
            },
            None => 0,
        }
    }
}

/// A claimable daily reward item.
#[derive(Debug, Clone)]
pub struct DailyReward {
    /// Name of the reward item.
    pub name: String,
    /// Quantity of the reward.
    pub amount: u32,
    /// URL to the reward icon.
    pub icon: String,
}

impl DailyReward {
    /// Creates a new `DailyReward`.
    pub fn new(name: &str, amount: u32, icon: &str) -> (r: Self)
        ensures
            r.name@ == name@,
            r.amount == amount,
            r.icon@ == icon@,
    {
        DailyReward { name: name.to_owned(), amount, icon: icon.to_owned() }
    }

    /// A copy of this reward.
    pub fn duplicate(&self) -> (r: Self)
        ensures
            r.name@ == self.name@,
            r.amount == self.amount,
            r.icon@ == self.icon@,
    {
        DailyReward { name: self.name.clone(), amount: self.amount, icon: self.icon.clone() }
    }
}

/// Result of attempting to claim a daily reward.
#[derive(Debug, Clone)]
pub struct ClaimResult {
    /// Whether the claim was successful.
    pub success: bool,
    /// The reward that was claimed (if successful) or would have been claimed.
    pub reward: Option<DailyReward>,
    /// Updated sign-in status after the claim attempt.
    pub info: DailyRewardInfo,
    /// Optional message (e.g. "Already claimed today" or error details).
    pub message: Option<String>,
}

impl ClaimResult {
    /// Creates a successful claim result.
    pub fn success(reward: DailyReward, info: DailyRewardInfo) -> (r: Self)
        ensures
            r.success,
            r.reward == Some(reward),
            r.info == info,
            r.message is None,
    {
        ClaimResult { success: true, reward: Some(reward), info, message: None }
    }

    /// Creates the result of a claim for a reward that was already claimed.
    pub fn already_claimed(reward: Option<DailyReward>, info: DailyRewardInfo) -> (r: Self)
        ensures
            !r.success,
            r.reward == reward,
            r.info == info,
            r.message matches Some(m) && m@ == "Already claimed today"@,
    {
        ClaimResult {
            success: false,
            reward,
            info,
            message: Some("Already claimed today".to_owned()),
        }
    }

    /// Creates an error claim result with a message.
    pub fn error(message: &str, info: DailyRewardInfo) -> (r: Self)
        ensures
            !r.success,
            r.reward is None,
            r.info == info,
            r.message matches Some(m) && m@ == message@,
    {
        ClaimResult { success: false, reward: None, info, message: Some(message.to_owned()) }
    }
}

/// Full daily reward status including monthly rewards.
#[derive(Debug, Clone)]
pub struct DailyRewardStatus {
    /// Current sign-in status.
    pub info: DailyRewardInfo,
    /// Today's reward (claimed or claimable).
    pub today_reward: Option<DailyReward>,
    /// All rewards available this month.
    pub monthly_rewards: Vec<DailyReward>,
}

impl DailyRewardStatus {
    /// Creates a new `DailyRewardStatus`.
    pub fn new(
        info: DailyRewardInfo,
        today_reward: Option<DailyReward>,
        monthly_rewards: Vec<DailyReward>,
    ) -> (r: Self)
        ensures
            r.info == info,
            r.today_reward == today_reward,
            r.monthly_rewards@ == monthly_rewards@,
    {
        DailyRewardStatus { info, today_reward, monthly_rewards }
    }
}

} // verus!
