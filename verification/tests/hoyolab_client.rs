use storekeeper::client::error::ClientError;
use storekeeper::daily_reward::{DailyReward, DailyRewardInfo, DailyRewardStatus};
use storekeeper::game_id::GameId;
use storekeeper::hoyolab::client::{auth_check_outcome, cookie_header, http_failure_error};
use storekeeper::hoyolab::daily_reward::{
    already_claimed_result, claimed_result, genshin_daily_reward, hsr_daily_reward, reward_status, zzz_daily_reward,
};
use storekeeper::hoyolab::error::Error;

fn month() -> Vec<DailyReward> {
    vec![
        DailyReward::new("Primogems", 20, "p.png"),
        DailyReward::new("Mora", 5000, "m.png"),
        DailyReward::new("Hero's Wit", 2, "h.png"),
    ]
}

#[test]
fn reward_urls_name_the_endpoint_and_act() {
    let c = genshin_daily_reward();
    assert_eq!(c.reward_url("info"), "https://sg-hk4e-api.hoyolab.com/event/sol/info?act_id=e202102251931481&lang=en-us");
    assert_eq!(c.game_id, GameId::GenshinImpact);
    assert_eq!(c.reward_headers(), vec![("x-rpc-signgame", "hk4e"), ("referer", "https://act.hoyolab.com/")]);
    let h = hsr_daily_reward();
    assert_eq!(h.reward_url("sign"), "https://sg-public-api.hoyolab.com/event/luna/hkrpg/os/sign?act_id=e202303301540311&lang=en-us");
    let z = zzz_daily_reward();
    assert_eq!(z.reward_headers()[0], ("x-rpc-signgame", "zzz"));
    assert_eq!(z.game_id, GameId::ZenlessZoneZero);
}

#[test]
fn reward_status_picks_todays_reward() {
    let s = reward_status(DailyRewardInfo::new(true, 2), month());
    assert_eq!(s.today_reward.expect("signed day two").name, "Mora");
    let s = reward_status(DailyRewardInfo::new(false, 2), month());
    assert_eq!(s.today_reward.expect("day three is next").name, "Hero's Wit");
    let s = reward_status(DailyRewardInfo::new(false, 3), month());
    assert!(s.today_reward.is_none());
    let s = reward_status(DailyRewardInfo::new(true, 0), month());
    assert_eq!(s.today_reward.expect("saturates at the first").name, "Primogems");
    assert_eq!(s.monthly_rewards.len(), 3);
}

#[test]
fn claim_results_from_the_status_after_the_claim() {
    let status = DailyRewardStatus::new(DailyRewardInfo::new(true, 1), Some(DailyReward::new("Primogems", 20, "p.png")), month());
    let r = claimed_result(status);
    assert!(r.success);
    assert_eq!(r.reward.expect("reward").name, "Primogems");
    let status = DailyRewardStatus::new(DailyRewardInfo::new(true, 1), None, month());
    let r = claimed_result(status);
    assert!(!r.success);
    assert_eq!(r.message.as_deref(), Some("Claim succeeded but reward details unavailable"));
    assert!(r.info.is_signed);
    let status = DailyRewardStatus::new(DailyRewardInfo::new(true, 1), None, month());
    let r = already_claimed_result(status);
    assert!(!r.success);
    assert_eq!(r.message.as_deref(), Some("Already claimed today"));
}

#[test]
fn cookie_header_carries_both_cookies() {
    assert_eq!(cookie_header("123", "abc"), "ltuid_v2=123; ltoken_v2=abc");
}

#[test]
fn http_failure_quotes_a_trimmed_body_preview() {
    let e = http_failure_error(502, "502 Bad Gateway", "  upstream down \n");
    assert!(matches!(
        &e,
        Error::Client(ClientError::ApiError { code: 502, message }) if message == "HTTP 502 Bad Gateway from HoYoLab API: upstream down"
    ), "{}", e.message());
    let long = "x".repeat(1000);
    let e = http_failure_error(500, "500 Internal Server Error", &long);
    assert!(e.message().len() < 600);
}

#[test]
fn auth_check_reads_a_cookie_error_as_signed_out() {
    assert!(matches!(auth_check_outcome(Ok(())), Ok(true)));
    assert!(matches!(auth_check_outcome(Err(Error::Client(ClientError::api_error(-100, "not logged in")))), Ok(false)));
    assert!(matches!(
        auth_check_outcome(Err(Error::Client(ClientError::http_status(503, "down")))),
        Err(Error::Client(ClientError::HttpStatus { status: 503, .. }))
    ));
}
