//! The HoYoLab daily reward endpoints: where they are, what each request
//! carries, and how their answers become a reward status or a claim result.

use vstd::prelude::*;
use crate::daily_reward::{ClaimResult, DailyReward, DailyRewardInfo, DailyRewardStatus};
use crate::game_id::GameId;
use crate::text::{join2, join3};

verus! {

/// Configuration for a HoYoLab daily reward endpoint.
#[derive(Debug, Clone, Copy)]
pub struct HoyolabDailyRewardConfig {
    /// Base URL for the reward API.
    pub reward_url: &'static str,
    /// Act ID for the daily reward event.
    pub act_id: &'static str,
    /// Value for the `x-rpc-signgame` header.
    pub sign_game: &'static str,
    /// Game identifier.
    pub game_id: GameId,
}

/// Genshin Impact daily reward configuration.
pub fn genshin_daily_reward() -> (c: HoyolabDailyRewardConfig)
    ensures
        c.reward_url@ == "https://sg-hk4e-api.hoyolab.com/event/sol"@,
        c.act_id@ == "e202102251931481"@,
        c.sign_game@ == "hk4e"@,
        c.game_id == GameId::GenshinImpact,
{
    HoyolabDailyRewardConfig {
        reward_url: "https://sg-hk4e-api.hoyolab.com/event/sol",
        act_id: "e202102251931481",
        sign_game: "hk4e",
        game_id: GameId::GenshinImpact,
    }
}

/// Honkai: Star Rail daily reward configuration.
pub fn hsr_daily_reward() -> (c: HoyolabDailyRewardConfig)
    ensures
        c.reward_url@ == "https://sg-public-api.hoyolab.com/event/luna/hkrpg/os"@,
        c.act_id@ == "e202303301540311"@,
        c.sign_game@ == "hkrpg"@,
        c.game_id == GameId::HonkaiStarRail,
{
    HoyolabDailyRewardConfig {
        reward_url: "https://sg-public-api.hoyolab.com/event/luna/hkrpg/os",
        act_id: "e202303301540311",
        sign_game: "hkrpg",
        game_id: GameId::HonkaiStarRail,
    }
}

/// Zenless Zone Zero daily reward configuration.
pub fn zzz_daily_reward() -> (c: HoyolabDailyRewardConfig)
    ensures
        c.reward_url@ == "https://sg-public-api.hoyolab.com/event/luna/zzz/os"@,
        c.act_id@ == "e202406031448091"@,
        c.sign_game@ == "zzz"@,
        c.game_id == GameId::ZenlessZoneZero,
{
    HoyolabDailyRewardConfig {
        reward_url: "https://sg-public-api.hoyolab.com/event/luna/zzz/os",
        act_id: "e202406031448091",
        sign_game: "zzz",
        game_id: GameId::ZenlessZoneZero,
    }
}

/// The URL of an endpoint of the reward API.
pub open spec fn reward_url_text(config: HoyolabDailyRewardConfig, endpoint: Seq<char>) -> Seq<char> {
    config.reward_url@ + "/"@ + endpoint + "?act_id="@ + config.act_id@ + "&lang=en-us"@
}

/// The headers every daily reward request carries.
pub open spec fn reward_headers_spec(config: HoyolabDailyRewardConfig) -> Seq<(&'static str, &'static str)> {
    seq![("x-rpc-signgame", config.sign_game), ("referer", "https://act.hoyolab.com/")]
}

impl HoyolabDailyRewardConfig {
    /// Builds a daily reward URL for the given endpoint.
    pub fn reward_url(&self, endpoint: &str) -> (u: String)
        ensures
            u@ == reward_url_text(*self, endpoint@),
    {
        let a = join3(self.reward_url, "/", endpoint);
        let b = join3(a.as_str(), "?act_id=", self.act_id);
        let u = join2(b.as_str(), "&lang=en-us");
        proof {
            assert(u@ =~= reward_url_text(*self, endpoint@));
        }
        u
    }

    /// The headers required for daily reward requests.
    pub fn reward_headers(&self) -> (h: Vec<(&'static str, &'static str)>)
        ensures
            h@ == reward_headers_spec(*self),
    {
        let h = vec![("x-rpc-signgame", self.sign_game), ("referer", "https://act.hoyolab.com/")];
        assert(h@ =~= reward_headers_spec(*self));
        h
    }
}

/// The position of today's reward in the month's list: the last signed day
/// when today is signed, otherwise the next one.
pub open spec fn today_position(info: DailyRewardInfo) -> int {
    if info.is_signed {
        if info.total_sign_day == 0 { 0 } else { info.total_sign_day - 1 }
    } else {
        info.total_sign_day as int
    }
}

/// `r` is a copy of `reward`.
pub open spec fn same_reward(r: DailyReward, reward: DailyReward) -> bool {
    r.name@ == reward.name@ && r.amount == reward.amount && r.icon@ == reward.icon@
}

/// Assembles the reward status from the sign-in info and the month's
/// rewards: today's reward is the one at today's position, if the list has
/// one there.
pub fn reward_status(info: DailyRewardInfo, rewards: Vec<DailyReward>) -> (s: DailyRewardStatus)
    ensures
        s.info == info,
        s.monthly_rewards@ == rewards@,
        0 <= today_position(info) < rewards@.len() ==> (s.today_reward matches Some(r) && same_reward(
            r,
            rewards@[today_position(info)],
        )),
        !(0 <= today_position(info) < rewards@.len()) ==> s.today_reward is None,
{
    let index: u32 = if info.is_signed {
        info.total_sign_day.saturating_sub(1)
    } else {
        info.total_sign_day
    };
    let today = if (index as usize) < rewards.len() {
        Some(rewards[index as usize].duplicate())
    } else {
        None
    };
    DailyRewardStatus::new(info, today, rewards)
}

/// What a claim reports once the status after it is known: the reward when
/// today's reward is known, otherwise an error result that still carries the
/// updated sign-in info.
pub fn claimed_result(status: DailyRewardStatus) -> (r: ClaimResult)
    ensures
        r.info == status.info,
        status.today_reward is Some ==> r.success && r.reward == status.today_reward && r.message is None,
        status.today_reward is None ==> !r.success && r.reward is None && (r.message matches Some(m)
            && m@ == "Claim succeeded but reward details unavailable"@),
{
    match status.today_reward {
        Some(reward) => ClaimResult::success(reward, status.info),
        None => ClaimResult::error("Claim succeeded but reward details unavailable", status.info),
    }
}

/// What a claim reports when today's reward was already signed.
pub fn already_claimed_result(status: DailyRewardStatus) -> (r: ClaimResult)
    ensures
        !r.success,
        r.reward == status.today_reward,
        r.info == status.info,
        r.message matches Some(m) && m@ == "Already claimed today"@,
{
    ClaimResult::already_claimed(status.today_reward, status.info)
}

} // verus!
