//! Instants carried by API responses: a count of seconds from now (as text or
//! as a number) or an absolute Unix millisecond timestamp, each turned into
//! an instant in whole seconds since the epoch.

use vstd::prelude::*;
use crate::clock::{jiff_max_second, jiff_min_second, jiff_now_seconds};
use crate::text::chars_of;

verus! {

/// Why a time field of a response could not be read.
#[derive(Debug, Clone, Copy, PartialEq, Eq, Structural)]
pub enum TimeFieldError {
    /// The seconds text is not an integer.
    InvalidSecondsString,
    /// The seconds text is a negative integer.
    NegativeSeconds,
    /// The instant that many seconds from now cannot be represented.
    SecondsOutOfRange,
    /// The seconds count does not fit a signed 64-bit integer.
    SecondsTooLarge,
    /// The millisecond count does not fit a signed 64-bit integer.
    TimestampTooLarge,
    /// The millisecond timestamp lies outside the representable instants.
    InvalidMillisecond,
}

/// The message of a time field error.
pub open spec fn time_field_message(e: TimeFieldError) -> Seq<char> {
    match e {
        TimeFieldError::InvalidSecondsString => "invalid seconds string"@,
        TimeFieldError::NegativeSeconds => "seconds must not be negative"@,
        TimeFieldError::SecondsOutOfRange => "seconds value out of representable range"@,
        TimeFieldError::SecondsTooLarge => "seconds value too large"@,
        TimeFieldError::TimestampTooLarge => "timestamp value too large"@,
        TimeFieldError::InvalidMillisecond => "invalid millisecond timestamp"@,
    }
}

impl TimeFieldError {
    /// The error's message.
    pub fn message(&self) -> (s: &'static str)
        ensures
            s@ == time_field_message(*self),
    {
        match self {
            TimeFieldError::InvalidSecondsString => "invalid seconds string",
            TimeFieldError::NegativeSeconds => "seconds must not be negative",
            TimeFieldError::SecondsOutOfRange => "seconds value out of representable range",
            TimeFieldError::SecondsTooLarge => "seconds value too large",
            TimeFieldError::TimestampTooLarge => "timestamp value too large",
            TimeFieldError::InvalidMillisecond => "invalid millisecond timestamp",
        }
    }
}

/// An instant (in whole seconds) that jiff can represent.
pub open spec fn in_jiff_range(t: int) -> bool {
    jiff_min_second() <= t <= jiff_max_second()
}

/// `t` plus `secs` seconds, from `jiff::Timestamp::from_second`,
/// `Timestamp::checked_add` with a `SignedDuration` of `secs` seconds and
/// `Timestamp::as_second`.
///
/// Claimed, as jiff's source shows: the sum when both `t` and the sum lie in
/// jiff's range of instants, nothing otherwise.
#[verifier::external_body]
fn jiff_checked_add_seconds(t: i64, secs: i64) -> (r: Option<i64>)
    ensures
        r == (if in_jiff_range(t as int) && in_jiff_range(t + secs) {
            Some((t + secs) as i64)
        } else {
            None::<i64>
        }),
{
    match jiff::Timestamp::from_second(t) {
        Ok(ts) => match ts.checked_add(jiff::SignedDuration::from_secs(secs)) {
            Ok(later) => Some(later.as_second()),
            Err(_) => None,
        },
        Err(_) => None,
    }
}

/// The first millisecond count jiff accepts.
pub open spec fn jiff_min_millisecond() -> int {
    jiff_min_second() * 1000
}

/// The last millisecond count jiff accepts.
pub open spec fn jiff_max_millisecond() -> int {
    jiff_max_second() * 1000
}

/// Whole seconds of a millisecond count, truncated toward zero.
pub open spec fn millis_to_seconds(ms: int) -> int {
    if ms >= 0 {
        ms / 1000
    } else {
        -((-ms) / 1000)
    }
}

/// The instant `ms` milliseconds after the epoch, in whole seconds, from
/// `jiff::Timestamp::from_millisecond` followed by `as_second`.
///
/// Claimed, as jiff's source shows: the instant exists exactly when `ms`
/// lies in jiff's range of millisecond counts (its range of seconds times a
/// thousand), and `as_second` drops the fraction (toward zero).
#[verifier::external_body]
fn jiff_millisecond_seconds(ms: i64) -> (r: Option<i64>)
    ensures
        r == (if jiff_min_millisecond() <= ms <= jiff_max_millisecond() {
            Some(millis_to_seconds(ms as int) as i64)
        } else {
            None::<i64>
        }),
{
    match jiff::Timestamp::from_millisecond(ms) {
        Ok(ts) => Some(ts.as_second()),
        Err(_) => None,
    }
}

/// The instant `secs` seconds after `now`: `now` itself for zero, otherwise
/// the sum when jiff can represent it.
pub open spec fn after_seconds(now: int, secs: int) -> Result<i64, TimeFieldError> {
    if secs == 0 {
        Ok(now as i64)
    } else if in_jiff_range(now) && in_jiff_range(now + secs) {
        Ok((now + secs) as i64)
    } else {
        Err(TimeFieldError::SecondsOutOfRange)
    }
}

/// The instant `secs` seconds after `now`.
pub fn instant_after_seconds(now: i64, secs: i64) -> (r: Result<i64, TimeFieldError>)
    ensures
        r == after_seconds(now as int, secs as int),
{
    if secs == 0 {
        return Ok(now);
    }
    match jiff_checked_add_seconds(now, secs) {
        Some(t) => Ok(t),
        None => Err(TimeFieldError::SecondsOutOfRange),
    }
}

/// The instant `secs` seconds from the current one.
pub fn timestamp_from_secs_from_now(secs: i64) -> (r: Result<i64, TimeFieldError>)
    ensures
        exists|now: int| in_jiff_range(now) && r == after_seconds(now, secs as int),
{
    let now = jiff_now_seconds();
    let r = instant_after_seconds(now, secs);
    assert(in_jiff_range(now as int) && r == after_seconds(now as int, secs as int));
    r
}

/// The instant of a Unix millisecond timestamp: `now` for zero, otherwise
/// the timestamp's whole seconds when jiff can represent it.
pub open spec fn of_millis(now: int, ms: int) -> Result<i64, TimeFieldError> {
    if ms == 0 {
        Ok(now as i64)
    } else if jiff_min_millisecond() <= ms <= jiff_max_millisecond() {
        Ok(millis_to_seconds(ms) as i64)
    } else {
        Err(TimeFieldError::InvalidMillisecond)
    }
}

/// The instant of a Unix millisecond timestamp, `now` standing for zero.
pub fn instant_of_millis(now: i64, ms: i64) -> (r: Result<i64, TimeFieldError>)
    ensures
        r == of_millis(now as int, ms as int),
{
    if ms == 0 {
        return Ok(now);
    }
    match jiff_millisecond_seconds(ms) {
        Some(t) => Ok(t),
        None => Err(TimeFieldError::InvalidMillisecond),
    }
}

/// The instant of a Unix millisecond timestamp; the current instant for zero.
pub fn timestamp_from_millis(ms: i64) -> (r: Result<i64, TimeFieldError>)
    ensures
        exists|now: int| in_jiff_range(now) && r == of_millis(now, ms as int),
{
    let now = jiff_now_seconds();
    let r = instant_of_millis(now, ms);
    assert(in_jiff_range(now as int) && r == of_millis(now as int, ms as int));
    r
}

/// A decimal digit.
pub open spec fn is_digit(c: char) -> bool {
    '0' <= c <= '9'
}

/// Every character is a decimal digit.
pub open spec fn all_digits(s: Seq<char>) -> bool {
    forall|i: int| 0 <= i < s.len() ==> is_digit(#[trigger] s[i])
}

/// The value of a string of decimal digits.
pub open spec fn digits_value(s: Seq<char>) -> int
    decreases s.len(),
{
    if s.len() == 0 {
        0
    } else {
        digits_value(s.drop_last()) * 10 + (s.last() as int - '0' as int)
    }
}

/// The length of a leading sign, if any.
pub open spec fn sign_len(s: Seq<char>) -> int {
    if s.len() > 0 && (s[0] == '-' || s[0] == '+') {
        1
    } else {
        0
    }
}

/// The value of a signed 64-bit integer written in decimal (an optional
/// sign, then one or more digits), as `str::parse::<i64>` reads it; none
/// for any other text or a value out of range.
pub open spec fn integer_text_value(s: Seq<char>) -> Option<int> {
    let body = s.subrange(sign_len(s), s.len() as int);
    if body.len() == 0 || !all_digits(body) {
        None
    } else {
        let v = if s[0] == '-' { -digits_value(body) } else { digits_value(body) };
        if i64::MIN <= v <= i64::MAX {
            Some(v)
        } else {
            None
        }
    }
}

/// Digit values are never negative.
proof fn lemma_digits_value_nonneg(s: Seq<char>)
    requires
        all_digits(s),
    ensures
        digits_value(s) >= 0,
    decreases s.len(),
{
    if s.len() > 0 {
        assert(all_digits(s.drop_last())) by {
            assert forall|i: int| 0 <= i < s.drop_last().len() implies is_digit(#[trigger] s.drop_last()[i]) by {
                assert(s.drop_last()[i] == s[i]);
            }
        }
        lemma_digits_value_nonneg(s.drop_last());
        assert(is_digit(s[s.len() - 1]));
    }
}

/// Reads a signed 64-bit integer written in decimal.
pub fn parse_integer_text(text: &str) -> (r: Option<i64>)
    ensures
        r == match integer_text_value(text@) {
            Some(v) => Some(v as i64),
            None => None::<i64>,
        },
{
    let cs = chars_of(text);
    let ghost s = cs@;
    let n = cs.len();
    let start: usize = if n > 0 && (cs[0] == '-' || cs[0] == '+') { 1 } else { 0 };
    let ghost body = s.subrange(start as int, s.len() as int);
    if start >= n {
        proof {
            assert(sign_len(s) == start);
            assert(s.subrange(sign_len(s), s.len() as int).len() == 0);
            assert(integer_text_value(s) is None);
            assert(integer_text_value(text@) is None);
        }
        return None;
    }
    assert(sign_len(s) == start);
    let limit: u128 = 9223372036854775808;
    let mut mag: u128 = 0;
    let mut big = false;
    let mut i = start;
    while i < n
        invariant
            cs@ == s,
            s == text@,
            n == s.len(),
            start <= i <= n,
            start < n,
            sign_len(s) == start,
            body == s.subrange(start as int, s.len() as int),
            limit == 9223372036854775808,
            all_digits(s.subrange(start as int, i as int)),
            !big ==> mag == digits_value(s.subrange(start as int, i as int)) && mag <= limit,
            big ==> digits_value(s.subrange(start as int, i as int)) > limit,
        decreases n - i,
    {
        let c = cs[i];
        if !('0' <= c && c <= '9') {
            proof {
                assert(body[i - start] == c);
                assert(!all_digits(body));
            }
            return None;
        }
        let d = (c as u32 - '0' as u32) as u128;
        proof {
            let p = s.subrange(start as int, i as int);
            let q = s.subrange(start as int, i + 1);
            assert(q.drop_last() =~= p);
            assert(q.last() == c);
            assert(digits_value(q) == digits_value(p) * 10 + d);
            assert forall|j: int| 0 <= j < q.len() implies is_digit(#[trigger] q[j]) by {
                if j < p.len() {
                    assert(q[j] == p[j]);
                }
            }
            if !big {
                lemma_digits_value_nonneg(p);
            }
        }
        if !big {
            let next = mag * 10 + d;
            if next > limit {
                big = true;
            } else {
                mag = next;
            }
        }
        i += 1;
    }
    proof {
        assert(s.subrange(start as int, n as int) =~= body);
        assert(sign_len(s) == start);
    }
    if big {
        return None;
    }
    if cs[0] == '-' {
        Some((0i128 - mag as i128) as i64)
    } else if mag < limit {
        Some(mag as i64)
    } else {
        None
    }
}

/// The instant a seconds-from-now text stands for, at `now`.
pub open spec fn seconds_text_instant(text: Seq<char>, now: int) -> Result<i64, TimeFieldError> {
    match integer_text_value(text) {
        None => Err(TimeFieldError::InvalidSecondsString),
        Some(v) => if v < 0 {
            Err(TimeFieldError::NegativeSeconds)
        } else {
            after_seconds(now, v)
        },
    }
}

/// Reads a seconds-from-now text into an instant at `now`: refused when
/// not an integer or negative.
pub fn seconds_string_instant(text: &str, now: i64) -> (r: Result<i64, TimeFieldError>)
    ensures
        r == seconds_text_instant(text@, now as int),
{
    match parse_integer_text(text) {
        None => Err(TimeFieldError::InvalidSecondsString),
        Some(v) => if v < 0 {
            Err(TimeFieldError::NegativeSeconds)
        } else {
            instant_after_seconds(now, v)
        },
    }
}

/// The instant a seconds-from-now count stands for, at `now`.
pub open spec fn seconds_count_instant(value: u64, now: int) -> Result<i64, TimeFieldError> {
    if value > i64::MAX {
        Err(TimeFieldError::SecondsTooLarge)
    } else {
        after_seconds(now, value as int)
    }
}

/// Reads a seconds-from-now count into an instant at `now`.
pub fn seconds_u64_instant(value: u64, now: i64) -> (r: Result<i64, TimeFieldError>)
    ensures
        r == seconds_count_instant(value, now as int),
{
    if value > i64::MAX as u64 {
        Err(TimeFieldError::SecondsTooLarge)
    } else {
        instant_after_seconds(now, value as i64)
    }
}

/// The instant a millisecond timestamp stands for, `now` standing for zero.
pub open spec fn millis_count_instant(value: u64, now: int) -> Result<i64, TimeFieldError> {
    if value > i64::MAX {
        Err(TimeFieldError::TimestampTooLarge)
    } else {
        of_millis(now, value as int)
    }
}

/// Reads a millisecond timestamp into an instant, `now` standing for zero.
pub fn timestamp_ms_instant(value: u64, now: i64) -> (r: Result<i64, TimeFieldError>)
    ensures
        r == millis_count_instant(value, now as int),
{
    if value > i64::MAX as u64 {
        Err(TimeFieldError::TimestampTooLarge)
    } else {
        instant_of_millis(now, value as i64)
    }
}

/// Reads a seconds-from-now text (as an API sends it) into an instant
/// from the current one.
pub fn seconds_string_to_instant(text: &str) -> (r: Result<i64, TimeFieldError>)
    ensures
        exists|now: int| #![trigger seconds_text_instant(text@, now)]
            in_jiff_range(now) && r == seconds_text_instant(text@, now),
{
    let now = jiff_now_seconds();
    let r = seconds_string_instant(text, now);
    assert(in_jiff_range(now as int) && r == seconds_text_instant(text@, now as int));
    r
}

/// Reads a seconds-from-now count (as an API sends it) into an instant
/// from the current one.
pub fn seconds_u64_to_instant(value: u64) -> (r: Result<i64, TimeFieldError>)
    ensures
        exists|now: int| #![trigger seconds_count_instant(value, now)]
            in_jiff_range(now) && r == seconds_count_instant(value, now),
{
    let now = jiff_now_seconds();
    let r = seconds_u64_instant(value, now);
    assert(in_jiff_range(now as int) && r == seconds_count_instant(value, now as int));
    r
}

/// Reads a Unix millisecond timestamp (as an API sends it) into an
/// instant; zero stands for the current instant.
pub fn timestamp_ms_to_instant(value: u64) -> (r: Result<i64, TimeFieldError>)
    ensures
        exists|now: int| #![trigger millis_count_instant(value, now)]
            in_jiff_range(now) && r == millis_count_instant(value, now),
{
    let now = jiff_now_seconds();
    let r = timestamp_ms_instant(value, now);
    assert(in_jiff_range(now as int) && r == millis_count_instant(value, now as int));
    r
}

} // verus!
