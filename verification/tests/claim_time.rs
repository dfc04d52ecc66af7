use storekeeper::claim_time::{next_claim_datetime_utc, ClaimTime, DEFAULT_AUTO_CLAIM_TIME, next_claim_after};

#[test]
fn claim_time_test_claim_time_valid_formats() {
    assert!(ClaimTime::from_utc8_str("00:00").is_ok(), "00:00 should be valid (midnight UTC+8)");
    assert!(ClaimTime::from_utc8_str("00:10").is_ok(), "00:10 should be valid");
    assert!(ClaimTime::from_utc8_str("12:30").is_ok(), "12:30 should be valid (noon UTC+8)");
    assert!(ClaimTime::from_utc8_str("23:59").is_ok(), "23:59 should be valid (end of day UTC+8)");
    assert!(ClaimTime::from_utc8_str("08:00").is_ok(), "08:00 should be valid (morning UTC+8)");
    assert!(ClaimTime::from_utc8_str("16:45").is_ok(), "16:45 should be valid (afternoon UTC+8)");
}

#[test]
fn claim_time_test_claim_time_utc_conversion() {
    let time = ClaimTime::from_utc8_str("08:30").expect("08:30 should be valid");
    assert_eq!(time.utc_hour(), 0);
    assert_eq!(time.utc_minute(), 30);
    let time = ClaimTime::from_utc8_str("16:00").expect("16:00 should be valid");
    assert_eq!(time.utc_hour(), 8);
    assert_eq!(time.utc_minute(), 0);
    let time = ClaimTime::from_utc8_str("23:59").expect("23:59 should be valid");
    assert_eq!(time.utc_hour(), 15);
    assert_eq!(time.utc_minute(), 59);
}

#[test]
fn claim_time_test_claim_time_midnight_utc8_conversion() {
    let time = ClaimTime::from_utc8_str("00:00").expect("00:00 should be valid");
    assert_eq!(time.utc_hour(), 16);
    assert_eq!(time.utc_minute(), 0);
    let time = ClaimTime::from_utc8_str("07:59").expect("07:59 should be valid");
    assert_eq!(time.utc_hour(), 23);
    assert_eq!(time.utc_minute(), 59);
}

#[test]
fn claim_time_test_claim_time_to_utc8_string_roundtrip() {
    let test_times = ["00:00", "00:10", "08:30", "12:00", "16:45", "23:59"];
    for time_str in test_times {
        let time = ClaimTime::from_utc8_str(time_str).expect("all test times should be valid");
        assert_eq!(time.to_utc8_string(), time_str, "Round-trip failed for {time_str}");
    }
}

#[test]
fn claim_time_test_claim_time_display() {
    let time = ClaimTime::from_utc8_str("08:30").expect("08:30 should be valid");
    assert_eq!(format!("{}", time.to_utc8_string()), "08:30");
}

#[test]
fn claim_time_test_claim_time_default_utc8_midnight() {
    let default = ClaimTime::default_utc8_midnight();
    assert_eq!(default.utc_hour(), 16);
    assert_eq!(default.utc_minute(), 0);
    assert_eq!(default.to_utc8_string(), "00:00");
}

#[test]
fn claim_time_test_claim_time_invalid_empty() {
    assert!(ClaimTime::from_utc8_str("").is_err(), "Empty string should be invalid");
}

#[test]
fn claim_time_test_claim_time_invalid_missing_leading_zero() {
    assert!(ClaimTime::from_utc8_str("0:00").is_err(), "0:00 should be invalid (missing leading zero in hour)");
    assert!(ClaimTime::from_utc8_str("00:0").is_err(), "00:0 should be invalid (missing leading zero in minute)");
    assert!(ClaimTime::from_utc8_str("9:30").is_err(), "9:30 should be invalid (missing leading zero)");
}

#[test]
fn claim_time_test_claim_time_invalid_out_of_range() {
    assert!(ClaimTime::from_utc8_str("24:00").is_err(), "24:00 should be invalid (hour out of range)");
    assert!(ClaimTime::from_utc8_str("00:60").is_err(), "00:60 should be invalid (minute out of range)");
    assert!(ClaimTime::from_utc8_str("25:30").is_err(), "25:30 should be invalid (hour out of range)");
    assert!(ClaimTime::from_utc8_str("12:99").is_err(), "12:99 should be invalid (minute out of range)");
}

#[test]
fn claim_time_test_claim_time_invalid_format() {
    assert!(ClaimTime::from_utc8_str("12:30:00").is_err(), "12:30:00 should be invalid (includes seconds)");
    assert!(ClaimTime::from_utc8_str("12-30").is_err(), "12-30 should be invalid (wrong separator)");
    assert!(ClaimTime::from_utc8_str("1230").is_err(), "1230 should be invalid (no separator)");
}

#[test]
fn claim_time_test_claim_time_invalid_non_numeric() {
    assert!(ClaimTime::from_utc8_str("abc").is_err(), "abc should be invalid (non-numeric)");
    assert!(ClaimTime::from_utc8_str("12:ab").is_err(), "12:ab should be invalid (partial non-numeric)");
    assert!(ClaimTime::from_utc8_str("ab:30").is_err(), "ab:30 should be invalid (partial non-numeric)");
    assert!(ClaimTime::from_utc8_str("HH:MM").is_err(), "HH:MM should be invalid (placeholder text)");
}

#[test]
fn claim_time_test_claim_time_invalid_whitespace() {
    assert!(ClaimTime::from_utc8_str(" 00:10").is_err(), " 00:10 should be invalid (leading whitespace)");
    assert!(ClaimTime::from_utc8_str("00:10 ").is_err(), "00:10  should be invalid (trailing whitespace)");
    assert!(ClaimTime::from_utc8_str("00 :10").is_err(), "00 :10 should be invalid (internal whitespace)");
}

#[test]
fn claim_time_test_default_auto_claim_time_constant() {
    assert_eq!(DEFAULT_AUTO_CLAIM_TIME, "00:00");
}

#[test]
fn claim_time_test_next_claim_datetime_utc_with_default() {
    let result = next_claim_datetime_utc(None);
    assert!(result.is_ok(), "next_claim_datetime_utc should succeed with None (default)");
    let next_claim = result.expect("should be valid");
    let now = chrono::Utc::now().timestamp();
    let diff = next_claim - now;
    assert!(diff >= -5, "Next claim time should be in the future (or very recent)");
    assert!(diff / 3600 <= 24, "Next claim time should be within 24 hours");
}

#[test]
fn claim_time_test_next_claim_datetime_utc_with_custom_time() {
    let claim_time = ClaimTime::from_utc8_str("08:30").expect("08:30 should be valid UTC+8 time");
    let result = next_claim_datetime_utc(Some(claim_time));
    assert!(result.is_ok(), "next_claim_datetime_utc should succeed with valid time");
    let next_claim = result.expect("should be valid");
    let now = chrono::Utc::now().timestamp();
    let diff = next_claim - now;
    assert!(diff >= -5, "Next claim time should be in the future (or very recent)");
    assert!(diff / 3600 <= 24, "Next claim time should be within 24 hours");
}

#[test]
fn claim_time_test_claim_time_copy_semantics() {
    let time = ClaimTime::from_utc8_str("08:30").expect("08:30 should be valid");
    let time2 = time;
    let time3 = time;
    assert_eq!(time.to_utc8_string(), time2.to_utc8_string());
    assert_eq!(time.to_utc8_string(), time3.to_utc8_string());
}

#[test]
fn next_claim_after_picks_today_when_still_ahead() {
    // 2026-01-01T00:00:00Z; 08:30 UTC+8 is 00:30 UTC.
    let now: i64 = 1767225600;
    let t = ClaimTime::from_utc8_str("08:30").expect("valid");
    assert_eq!(next_claim_after(Some(t), now), now + 30 * 60);
}

#[test]
fn next_claim_after_rolls_over_to_tomorrow() {
    let now: i64 = 1767225600 + 3600;
    let t = ClaimTime::from_utc8_str("08:30").expect("valid");
    assert_eq!(next_claim_after(Some(t), now), 1767225600 + 86400 + 30 * 60);
    // Exactly at the claim instant the next one is a day later.
    let at = 1767225600 + 30 * 60;
    assert_eq!(next_claim_after(Some(t), at), at + 86400);
}

#[test]
fn next_claim_after_defaults_to_midnight_utc8() {
    let now: i64 = 1767225600;
    assert_eq!(next_claim_after(None, now), now + 16 * 3600);
}

#[test]
fn next_claim_after_handles_instants_before_the_epoch() {
    let now: i64 = -3600;
    assert_eq!(next_claim_after(None, now), 16 * 3600);
}

#[test]
fn invalid_claim_time_messages() {
    let err = ClaimTime::from_utc8_str("1230").expect_err("too short");
    assert_eq!(err.message(), "Failed to parse configuration: Invalid claim_time format: '1230'. Expected HH:MM (e.g., '00:10')");
    let err = ClaimTime::from_utc8_str("12-30").expect_err("no colon");
    assert_eq!(err.message(), "Failed to parse configuration: Invalid claim_time format: '12-30'. Expected HH:MM with colon separator");
    let err = ClaimTime::from_utc8_str("24:00").expect_err("hour out of range");
    assert!(err.message().starts_with("Failed to parse configuration: Invalid claim_time '24:00': "));
}

#[test]
fn a_time_that_is_not_two_digits_a_colon_and_two_digits_is_refused() {
    for s in [" 1:30", "1 :30", "12: 5", "+1:30", "12:ab", "ab:12"] {
        assert!(ClaimTime::from_utc8_str(s).is_err(), "{s:?} is not strict HH:MM");
    }
    let err = ClaimTime::from_utc8_str(" 1:30").expect_err("a space is no digit");
    assert!(matches!(err, storekeeper::error::Error::ConfigParseFailed { .. }));
    assert_eq!(ClaimTime::from_utc8_str("07:59").expect("strict HH:MM").to_utc8_string(), "07:59");
}
