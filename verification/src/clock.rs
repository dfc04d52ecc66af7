//! The wall clock, read through the time crates the application uses.
//!
//! What these return depends on the moment of the call, so their contracts
//! claim nothing of the value beyond its range; the verified logic takes the
//! instant as an argument.

use vstd::prelude::*;
use chrono::Datelike;

verus! {

/// The current instant in whole seconds since the Unix epoch, from
/// `jiff::Timestamp::now` followed by `as_second`.
///
/// Only jiff's range of instants is claimed of the value (a `Timestamp`
/// cannot hold any other); the value itself is the machine's clock.
#[verifier::external_body]
pub(crate) fn jiff_now_seconds() -> (t: i64)
    ensures
        jiff_min_second() <= t <= jiff_max_second(),
{
    jiff::Timestamp::now().as_second()
}

/// The current instant in whole seconds since the Unix epoch, from
/// `chrono::Utc::now` followed by `timestamp`.
///
/// Only the range of chrono's `DateTime<Utc>` (years -262143 to 262142) is
/// claimed of the value; the value is the machine's clock.
#[verifier::external_body]
pub(crate) fn chrono_now_seconds() -> (t: i64)
    ensures
        -8_300_000_000_000 <= t <= 8_300_000_000_000,
{
    chrono::Utc::now().timestamp()
}

/// Today's day of the month in UTC+8, from `chrono::FixedOffset::east_opt`,
/// `chrono::Utc::now`, `with_timezone` and `Datelike::day`; `None` when the
/// offset cannot be built.
///
/// Claimed: the offset is built (chrono's `east_opt` accepts every offset
/// strictly between minus and plus one day, and eight hours is one of them),
/// and the day lies in 1..=31, the range chrono documents for `day`. The day
/// itself depends on the clock and is not stated.
#[verifier::external_body]
pub(crate) fn utc8_day_of_month() -> (d: Option<u32>)
    ensures
        d is Some,
        d matches Some(v) ==> 1 <= v <= 31,
{
    match chrono::FixedOffset::east_opt(8 * 3600) {
        Some(tz) => Some(chrono::Utc::now().with_timezone(&tz).day()),
        None => None,
    }
}

/// The earliest whole second a `jiff::Timestamp` can hold.
pub open spec fn jiff_min_second() -> int {
    -377_705_023_201
}

/// The latest whole second a `jiff::Timestamp` can hold.
pub open spec fn jiff_max_second() -> int {
    253_402_207_200
}

/// `secs` seconds after the instant `t` (in seconds since the epoch), from
/// `jiff::Timestamp::from_second`, `Timestamp::saturating_add` with a
/// `SignedDuration` of `secs` seconds, and `Timestamp::as_second`.
///
/// Claimed, as jiff documents and its source shows: an instant outside
/// jiff's range is refused (`None`); otherwise the sum saturates at the
/// latest instant jiff can hold.
#[verifier::external_body]
pub(crate) fn jiff_saturating_add_seconds(t: i64, secs: i64) -> (r: Option<i64>)
    requires
        secs >= 0,
    ensures
        jiff_min_second() <= t <= jiff_max_second() ==> r == Some(
            if t + secs <= jiff_max_second() { (t + secs) as i64 } else { jiff_max_second() as i64 },
        ),
        !(jiff_min_second() <= t <= jiff_max_second()) ==> r is None,
{
    match jiff::Timestamp::from_second(t) {
        Ok(ts) => match ts.saturating_add(jiff::SignedDuration::from_secs(secs)) {
            Ok(later) => Some(later.as_second()),
            Err(_) => None,
        },
        Err(_) => None,
    }
}

} // verus!
