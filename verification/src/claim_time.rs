//! The time of day at which daily rewards are claimed.
//!
//! Configuration files give the time as "HH:MM" in UTC+8 (China Standard
//! Time, where the rewards reset); it is kept internally in UTC.

use vstd::prelude::*;
use vstd::string::StringSliceAdditionalSpecFns;
use chrono::Timelike;
use crate::clock::chrono_now_seconds;
use crate::error::Error;
use crate::text::{chars_of, join3, string_of};

verus! {

/// Default claim time in UTC+8 (midnight), as configured.
pub const DEFAULT_AUTO_CLAIM_TIME: &'static str = "00:00";

/// The UTC+8 offset in minutes.
pub open spec fn utc8_offset_minutes() -> int {
    480
}

/// Minutes in a day.
pub open spec fn day_minutes() -> int {
    1440
}

/// What chrono's `NaiveTime::parse_from_str(s, "%H:%M")` yields for `s`: the
/// hour and minute, or nothing when it rejects the string.
pub uninterp spec fn chrono_hour_minute(s: Seq<char>) -> Option<(u32, u32)>;

/// An ASCII decimal digit.
pub open spec fn is_digit(c: char) -> bool {
    '0' <= c <= '9'
}

/// The value of an ASCII decimal digit.
pub open spec fn digit_value(c: char) -> int {
    c as int - '0' as int
}

/// Strict "HH:MM" shape: two digits, a colon, two digits.
pub open spec fn hhmm_form(s: Seq<char>) -> bool {
    s.len() == 5 && is_digit(s[0]) && is_digit(s[1]) && s[2] == ':' && is_digit(s[3]) && is_digit(s[4])
}

/// The hour an "HH:MM" string spells.
pub open spec fn hhmm_hour(s: Seq<char>) -> int {
    digit_value(s[0]) * 10 + digit_value(s[1])
}

/// The minute an "HH:MM" string spells.
pub open spec fn hhmm_minute(s: Seq<char>) -> int {
    digit_value(s[3]) * 10 + digit_value(s[4])
}

/// An hour below 24 and a minute below 60.
pub open spec fn valid_hour_minute(hm: (u32, u32)) -> bool {
    let (h, m) = hm;
    h < 24 && m < 60
}

/// What a strict "HH:MM" string parses to: its hour and minute when they are
/// in range, else nothing.
pub open spec fn hhmm_parsed(s: Seq<char>) -> Option<(u32, u32)> {
    if hhmm_hour(s) < 24 && hhmm_minute(s) < 60 {
        Some((hhmm_hour(s) as u32, hhmm_minute(s) as u32))
    } else {
        None
    }
}

/// Parses "%H:%M" with chrono, returning the hour and minute, or chrono's
/// error message. Calls `chrono::NaiveTime::parse_from_str`.
///
/// Claimed: the result is the named `chrono_hour_minute` of the string, an
/// accepted time has hour < 24 and minute < 60, and a strict two-digit
/// "HH:MM" string is accepted exactly when its hour is below 24 and its
/// minute below 60, with those values. (chrono also accepts other shapes,
/// such as a one-digit hour after a space; those are left to the name.)
#[verifier::external_body]
fn parse_hour_minute(s: &str) -> (r: Result<(u32, u32), String>)
    ensures
        r is Ok <==> chrono_hour_minute(s@) is Some,
        r matches Ok(hm) ==> chrono_hour_minute(s@) == Some(hm) && valid_hour_minute(hm),
        hhmm_form(s@) ==> (r is Ok <==> hhmm_parsed(s@) is Some),
        hhmm_form(s@) && r is Ok ==> Some(r->Ok_0) == hhmm_parsed(s@),
{
    match chrono::NaiveTime::parse_from_str(s, "%H:%M") {
        Ok(t) => Ok((t.hour(), t.minute())),
        Err(e) => Err(e.to_string()),
    }
}

/// A time of day stored in UTC, as minutes since midnight.
#[derive(Debug, Clone, Copy, PartialEq, Eq, Structural)]
pub struct ClaimTime {
    minutes: u32,
}

/// Minutes since UTC midnight of a UTC+8 wall time given as hour and minute
/// (subtracting eight hours wraps around midnight).
pub open spec fn utc_minutes_of_utc8(hour: int, minute: int) -> int {
    (hour * 60 + minute - utc8_offset_minutes() + day_minutes()) % day_minutes()
}

/// Minutes since UTC midnight of a UTC+8 (hour, minute) pair.
pub open spec fn utc_minutes_of_pair(hm: (u32, u32)) -> int {
    let (h, m) = hm;
    utc_minutes_of_utc8(h as int, m as int)
}

/// The two ASCII digits of a number below 100.
pub open spec fn two_digits(n: int) -> Seq<char> {
    seq![(n / 10 + '0' as int) as char, (n % 10 + '0' as int) as char]
}

/// "HH:MM" of a minute-of-day.
pub open spec fn hhmm_text(minutes: int) -> Seq<char> {
    two_digits(minutes / 60) + seq![':'] + two_digits(minutes % 60)
}

/// The message for a string that is not five bytes long.
pub open spec fn length_message(s: Seq<char>) -> Seq<char> {
    "Invalid claim_time format: '"@ + s + "'. Expected HH:MM (e.g., '00:10')"@
}

/// The message for a string without a colon at the third character.
pub open spec fn colon_message(s: Seq<char>) -> Seq<char> {
    "Invalid claim_time format: '"@ + s + "'. Expected HH:MM with colon separator"@
}

/// Whether the string has a colon as its third character.
pub open spec fn colon_third(s: Seq<char>) -> bool {
    s.len() > 2 && s[2] == ':'
}

/// What `from_utc8_str` returns: the UTC time of a strict "HH:MM" string
/// whose hour is below 24 and minute below 60, and `ConfigParseFailed` for
/// every other string.
pub open spec fn from_utc8_result(s: &str, r: Result<ClaimTime, Error>) -> bool {
    if s.spec_bytes().len() != 5 {
        r matches Err(Error::ConfigParseFailed { message }) && message@ == length_message(s@)
    } else if !colon_third(s@) {
        r matches Err(Error::ConfigParseFailed { message }) && message@ == colon_message(s@)
    } else if !hhmm_form(s@) {
        r matches Err(Error::ConfigParseFailed { .. })
    } else {
        match hhmm_parsed(s@) {
            Some(hm) => r matches Ok(t) && t.utc_minutes() == utc_minutes_of_pair(hm),
            None => r matches Err(Error::ConfigParseFailed { .. }),
        }
    }
}

/// Formatting a claim time and parsing the text back gives the same time.
pub proof fn lemma_format_then_parse(t: ClaimTime, s: &str, r: Result<ClaimTime, Error>)
    requires
        0 <= t.utc_minutes() < day_minutes(),
        s@ == hhmm_text((t.utc_minutes() + utc8_offset_minutes()) % day_minutes()),
        from_utc8_result(s, r),
    ensures
        r matches Ok(t2) && t2.utc_minutes() == t.utc_minutes(),
{
    let local = (t.utc_minutes() + 480) % 1440;
    assert(0 <= local < 1440);
    let h = local / 60;
    let m = local % 60;
    assert(s@[0] == (h / 10 + '0' as int) as char);
    assert(s@[1] == (h % 10 + '0' as int) as char);
    assert(s@[3] == (m / 10 + '0' as int) as char);
    assert(s@[4] == (m % 10 + '0' as int) as char);
    assert(hhmm_form(s@));
    assert(hhmm_hour(s@) == h);
    assert(hhmm_minute(s@) == m);
    assert(vstd::string::is_ascii(s)) by {
        assert(vstd::utf8::is_ascii_chars(s@)) by {
            assert forall|i: int| 0 <= i < s@.len() implies '\0' <= #[trigger] s@[i] <= '\u{7f}' by {}
        }
    }
    vstd::string::is_ascii_spec_bytes(s);
    assert(s.spec_bytes().len() == 5);
    assert(colon_third(s@));
    assert(h * 60 + m == local);
}

/// Parsing a strict "HH:MM" string and formatting the result gives the string
/// back.
pub proof fn lemma_parse_then_format(s: &str, r: Result<ClaimTime, Error>)
    requires
        hhmm_form(s@),
        from_utc8_result(s, r),
        r is Ok,
    ensures
        hhmm_text((r->Ok_0.utc_minutes() + utc8_offset_minutes()) % day_minutes()) == s@,
{
    vstd::string::is_ascii_spec_bytes(s);
    assert(vstd::string::is_ascii(s)) by {
        assert(vstd::utf8::is_ascii_chars(s@)) by {
            assert forall|i: int| 0 <= i < s@.len() implies '\0' <= #[trigger] s@[i] <= '\u{7f}' by {}
        }
    }
    assert(s.spec_bytes().len() == 5);
    let h = hhmm_hour(s@);
    let m = hhmm_minute(s@);
    let t = r->Ok_0;
    assert(t.utc_minutes() == (h * 60 + m - 480 + 1440) % 1440);
    let local = (t.utc_minutes() + 480) % 1440;
    assert(local == h * 60 + m);
    assert(local / 60 == h);
    assert(local % 60 == m);
    assert(hhmm_text(local) =~= s@);
}

impl ClaimTime {
    /// Minutes since UTC midnight.
    pub closed spec fn utc_minutes(self) -> int {
        self.minutes as int
    }

    /// The stored minute is within a day.
    #[verifier::type_invariant]
    closed spec fn within_day(self) -> bool {
        self.minutes < 1440
    }

    /// Creates a `ClaimTime` from a UTC+8 time string in strict "HH:MM"
    /// format; the time is kept in UTC.
    pub fn from_utc8_str(time_str: &str) -> (r: Result<Self, Error>)
        ensures
            from_utc8_result(time_str, r),
    {
        if time_str.as_bytes().len() != 5 {
            let message = join3("Invalid claim_time format: '", time_str, "'. Expected HH:MM (e.g., '00:10')");
            assert(message@ == length_message(time_str@));
            let r = Err(Error::ConfigParseFailed { message });
            assert(time_str.spec_bytes().len() != 5);
            assert(from_utc8_result(time_str, r));
            return r;
        }
        let chars = chars_of(time_str);
        if !(chars.len() > 2 && chars[2] == ':') {
            let message = join3("Invalid claim_time format: '", time_str, "'. Expected HH:MM with colon separator");
            assert(message@ == colon_message(time_str@));
            let r = Err(Error::ConfigParseFailed { message });
            assert(!colon_third(time_str@));
            assert(from_utc8_result(time_str, r));
            return r;
        }
        assert(colon_third(time_str@));
        let strict = chars.len() == 5 && is_ascii_digit(chars[0]) && is_ascii_digit(chars[1])
            && is_ascii_digit(chars[3]) && is_ascii_digit(chars[4]);
        assert(strict == hhmm_form(time_str@));
        match parse_hour_minute(time_str) {
            Ok(_) if !strict => {
                let message = join3("Invalid claim_time format: '", time_str, "'. Expected HH:MM (e.g., '00:10')");
                let r = Err(Error::ConfigParseFailed { message });
                assert(from_utc8_result(time_str, r));
                r
            },
            Ok(hm) => {
                let (h, m) = hm;
                let minutes = (h * 60 + m + 1440 - 480) % 1440;
                let r = Ok(ClaimTime { minutes });
                assert(from_utc8_result(time_str, r));
                r
            },
            Err(e) => {
                let mut message = join3("Invalid claim_time '", time_str, "': ");
                message.append(e.as_str());
                let r = Err(Error::ConfigParseFailed { message });
                assert(from_utc8_result(time_str, r));
                r
            },
        }
    }

    /// Midnight in UTC+8 (16:00 UTC), the default claim time.
    pub fn default_utc8_midnight() -> (t: Self)
        ensures
            t.utc_minutes() == 960,
    {
        ClaimTime { minutes: 960 }
    }

    /// The hour of the stored UTC time.
    pub fn utc_hour(&self) -> (h: u32)
        ensures
            h == self.utc_minutes() / 60,
            h < 24,
    {
        proof {
            use_type_invariant(self);
        }
        self.minutes / 60
    }

    /// The minute of the stored UTC time.
    pub fn utc_minute(&self) -> (m: u32)
        ensures
            m == self.utc_minutes() % 60,
            m < 60,
    {
        self.minutes % 60
    }

    /// This time formatted as a UTC+8 "HH:MM" string (the inverse of
    /// `from_utc8_str`).
    pub fn to_utc8_string(&self) -> (s: String)
        ensures
            s@ == hhmm_text((self.utc_minutes() + utc8_offset_minutes()) % day_minutes()),
    {
        proof {
            use_type_invariant(self);
        }
        let local = (self.minutes + 480) % 1440;
        let h = local / 60;
        let m = local % 60;
        let v: Vec<char> = vec![
            digit_char(h / 10),
            digit_char(h % 10),
            ':',
            digit_char(m / 10),
            digit_char(m % 10),
        ];
        assert(v@ =~= hhmm_text(local as int));
        string_of(v.as_slice())
    }
}

/// Whether a character is an ASCII decimal digit.
fn is_ascii_digit(c: char) -> (b: bool)
    ensures
        b == is_digit(c),
{
    '0' <= c && c <= '9'
}

/// The ASCII character of a decimal digit.
fn digit_char(d: u32) -> (c: char)
    requires
        d < 10,
    ensures
        c == (d + '0' as int) as char,
{
    if d == 0 { '0' }
    else if d == 1 { '1' }
    else if d == 2 { '2' }
    else if d == 3 { '3' }
    else if d == 4 { '4' }
    else if d == 5 { '5' }
    else if d == 6 { '6' }
    else if d == 7 { '7' }
    else if d == 8 { '8' }
    else { '9' }
}

/// Seconds in a day.
pub open spec fn day_seconds() -> int {
    86400
}

/// The next claim instant, in seconds since the epoch, for a claim time and
/// the current instant: today's claim instant if it is still ahead, otherwise
/// tomorrow's.
pub open spec fn next_claim_at(utc_minutes: int, now: int) -> int {
    let today = now - now % day_seconds() + utc_minutes * 60;
    if now >= today { today + day_seconds() } else { today }
}

/// Minutes since UTC midnight of a configured claim time; midnight UTC+8
/// (16:00 UTC) when none is configured.
pub open spec fn claim_minutes(claim_time: Option<ClaimTime>) -> int {
    match claim_time {
        Some(c) => c.utc_minutes(),
        None => 960,
    }
}

/// The next claim instant for `claim_time` (midnight UTC+8 when `None`) after
/// the instant `now`.
pub fn next_claim_after(claim_time: Option<ClaimTime>, now: i64) -> (t: i64)
    requires
        i64::MIN + 3 * day_seconds() <= now <= i64::MAX - 3 * day_seconds(),
    ensures
        t == next_claim_at(claim_minutes(claim_time), now as int),
        now < t <= now + day_seconds(),
{
    let time = match claim_time {
        Some(c) => c,
        None => ClaimTime::default_utc8_midnight(),
    };
    proof {
        use_type_invariant(&time);
    }
    let minutes = time.minutes;
    let rem: i64 = if now >= 0 {
        (now as u64 % 86400) as i64
    } else {
        let back: u64 = ((-(now as i128)) as u64) % 86400;
        if back == 0 { 0 } else { 86400 - back as i64 }
    };
    proof {
        lemma_rem_day(now as int, rem as int);
    }
    let today = now - rem + minutes as i64 * 60;
    if now >= today {
        today + 86400
    } else {
        today
    }
}

/// The exec remainder agrees with the Euclidean one.
proof fn lemma_rem_day(now: int, rem: int)
    requires
        now >= 0 ==> rem == now % 86400,
        now < 0 ==> rem == (if (-now) % 86400 == 0 { 0 } else { 86400 - (-now) % 86400 }),
    ensures
        rem == now % day_seconds(),
{
    if now < 0 {
        let a = -now;
        let q = a / 86400;
        let r = a % 86400;
        assert(a == q * 86400 + r) by (nonlinear_arith)
            requires q == a / 86400, r == a % 86400;
        if r == 0 {
            assert(now == (-q) * 86400);
            vstd::arithmetic::div_mod::lemma_mod_multiples_basic(-q, 86400);
        } else {
            assert(now == (-q - 1) * 86400 + (86400 - r));
            vstd::arithmetic::div_mod::lemma_fundamental_div_mod_converse(now, 86400, -q - 1, 86400 - r);
        }
    }
}

/// Calculates the next claim instant in UTC, in seconds since the epoch, for
/// a claim time (midnight UTC+8 when `None`): today's if it is still ahead,
/// otherwise tomorrow's.
pub fn next_claim_datetime_utc(claim_time: Option<ClaimTime>) -> (r: Result<i64, Error>)
    ensures
        r matches Ok(t) && exists|now: int|
            #![trigger next_claim_at(claim_minutes(claim_time), now)]
            now < t <= now + day_seconds() && t == next_claim_at(claim_minutes(claim_time), now),
{
    let now = chrono_now_seconds();
    Ok(next_claim_after(claim_time, now))
}

} // verus!
