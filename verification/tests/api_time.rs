use storekeeper::api_time::{
    instant_after_seconds, instant_of_millis, parse_integer_text, seconds_string_instant,
    seconds_string_to_instant, seconds_u64_instant, seconds_u64_to_instant, timestamp_from_millis,
    timestamp_from_secs_from_now, timestamp_ms_instant, timestamp_ms_to_instant, TimeFieldError,
};

fn now() -> i64 {
    chrono::Utc::now().timestamp()
}

#[test]
fn test_seconds_string_zero_returns_now() {
    let before = now();
    let value = seconds_string_to_instant("0").expect("should deserialize zero");
    let after = now();
    assert!(value >= before && value <= after, "Zero seconds should return approximately now");
}

#[test]
fn test_seconds_string_positive_adds_to_now() {
    let before = now();
    let value = seconds_string_to_instant("60").expect("should deserialize 60 seconds");
    let after = now();
    let diff_from_before = value - before;
    let diff_from_after = value - after;
    assert!((59..=61).contains(&diff_from_before), "60 seconds should add ~60s to now, got diff: {diff_from_before}");
    assert!((59..=61).contains(&diff_from_after), "60 seconds should add ~60s to now, got diff: {diff_from_after}");
}

#[test]
fn test_seconds_string_negative_fails() {
    assert_eq!(seconds_string_to_instant("-1"), Err(TimeFieldError::NegativeSeconds));
}

#[test]
fn test_seconds_string_invalid_fails() {
    assert_eq!(seconds_string_to_instant("not_a_number"), Err(TimeFieldError::InvalidSecondsString));
}

#[test]
fn test_seconds_u64_zero_returns_now() {
    let before = now();
    let value = seconds_u64_to_instant(0).expect("should deserialize zero");
    let after = now();
    assert!(value >= before && value <= after, "Zero seconds should return approximately now");
}

#[test]
fn test_seconds_u64_positive_adds_to_now() {
    let before = now();
    let value = seconds_u64_to_instant(120).expect("should deserialize 120 seconds");
    let diff = value - before;
    assert!((119..=121).contains(&diff), "120 seconds should add ~120s to now, got diff: {diff}");
}

#[test]
fn test_seconds_u64_overflow_fails() {
    assert_eq!(seconds_u64_to_instant(u64::MAX), Err(TimeFieldError::SecondsTooLarge));
}

#[test]
fn test_timestamp_ms_zero_returns_now() {
    let before = now();
    let value = timestamp_ms_to_instant(0).expect("should deserialize zero");
    let after = now();
    assert!(value >= before && value <= after, "Zero timestamp should return approximately now");
}

#[test]
fn test_timestamp_ms_valid_converts_to_exact_instant() {
    let value = timestamp_ms_to_instant(1_704_067_200_000).expect("should deserialize valid timestamp");
    assert_eq!(value, 1_704_067_200);
}

#[test]
fn test_timestamp_ms_overflow_fails() {
    assert_eq!(timestamp_ms_to_instant(u64::MAX), Err(TimeFieldError::TimestampTooLarge));
}

#[test]
fn test_timestamp_ms_future_works() {
    let future_ms = chrono::Utc::now().timestamp_millis() + 3_600_000;
    let value = timestamp_ms_to_instant(future_ms as u64).expect("should deserialize future timestamp");
    let diff = value - now();
    assert!((3590..=3610).contains(&diff), "Future timestamp should be ~1 hour from now, got diff: {diff}s");
}

#[test]
fn parse_integer_text_reads_like_str_parse() {
    for text in ["0", "-0", "+7", "-1", "42", "9223372036854775807", "-9223372036854775808", "007"] {
        assert_eq!(parse_integer_text(text), text.parse::<i64>().ok(), "{text}");
    }
    for text in ["", "-", "+", "1.5", " 1", "1 ", "9223372036854775808", "-9223372036854775809", "99999999999999999999999", "abc", "--1"] {
        assert_eq!(parse_integer_text(text), None, "{text}");
        assert!(text.parse::<i64>().is_err(), "{text}");
    }
}

#[test]
fn instants_at_a_fixed_now() {
    let now = 1_700_000_000;
    assert_eq!(instant_after_seconds(now, 0), Ok(now));
    assert_eq!(instant_after_seconds(now, 60), Ok(now + 60));
    assert_eq!(instant_after_seconds(now, i64::MAX), Err(TimeFieldError::SecondsOutOfRange));
    assert_eq!(seconds_string_instant("60", now), Ok(now + 60));
    assert_eq!(seconds_string_instant("x", now), Err(TimeFieldError::InvalidSecondsString));
    assert_eq!(seconds_u64_instant(5, now), Ok(now + 5));
    assert_eq!(timestamp_ms_instant(0, now), Ok(now));
    assert_eq!(timestamp_ms_instant(1_500, now), Ok(1));
    assert_eq!(instant_of_millis(now, -1_500), Ok(-1));
    assert_eq!(instant_of_millis(now, i64::MAX), Err(TimeFieldError::InvalidMillisecond));
    assert_eq!(timestamp_ms_instant(253_402_207_200_000, now), Ok(253_402_207_200));
    assert_eq!(timestamp_ms_instant(253_402_207_200_001, now), Err(TimeFieldError::InvalidMillisecond));
}

#[test]
fn clock_reading_variants_agree_with_the_clock() {
    let before = now();
    let t = timestamp_from_secs_from_now(10).expect("in range");
    assert!((before + 9..=now() + 11).contains(&t));
    assert_eq!(timestamp_from_millis(2_000), Ok(2));
}

#[test]
fn time_field_messages() {
    assert_eq!(TimeFieldError::InvalidSecondsString.message(), "invalid seconds string");
    assert_eq!(TimeFieldError::NegativeSeconds.message(), "seconds must not be negative");
    assert_eq!(TimeFieldError::SecondsOutOfRange.message(), "seconds value out of representable range");
    assert_eq!(TimeFieldError::SecondsTooLarge.message(), "seconds value too large");
    assert_eq!(TimeFieldError::TimestampTooLarge.message(), "timestamp value too large");
    assert_eq!(TimeFieldError::InvalidMillisecond.message(), "invalid millisecond timestamp");
}
