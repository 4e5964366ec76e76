//! The clock of the machine, and the calendar.
//!
//! The clock is read in one place, `unix_time`, and no contract says what it
//! reads: callers hand the reading on to functions that are verified for every
//! reading. The calendar only converts a reading that it is given.

use chrono::{DateTime, Datelike, Timelike};
use std::time::{SystemTime, UNIX_EPOCH};
use vstd::prelude::*;
use vstd::string::*;

verus! {

/// `SystemTime::now` of std, as whole seconds since 1970; nothing where the
/// clock stands before 1970.
#[verifier::external_body]
pub(crate) fn unix_time() -> Option<u64> {
    match SystemTime::now().duration_since(UNIX_EPOCH) {
        Ok(elapsed) => Some(elapsed.as_secs()),
        Err(_) => None,
    }
}

/// The day of the month and the hour of the day, in UTC, of the moment `secs`
/// seconds after the start of 1970, or nothing where the calendar does not
/// reach that far.
pub uninterp spec fn utc_day_and_hour_of(secs: u64) -> Option<(u32, u32)>;

/// `DateTime::from_timestamp` of `chrono`, with `Datelike::day` and
/// `Timelike::hour` of what it gives.
/// Claimed: the answer is a function of the reading; the day is in 1..=31, as
/// `Datelike::day` documents, and the hour is the number of whole hours since
/// the last midnight.
#[verifier::external_body]
pub(crate) fn utc_day_and_hour(secs: u64) -> (r: Option<(u32, u32)>)
    ensures
        r == utc_day_and_hour_of(secs),
        r matches Some(at) ==> 1 <= at.0 <= 31,
        r matches Some(at) ==> at.1 == (secs % 86_400) / 3_600,
{
    let moment = DateTime::from_timestamp(i64::try_from(secs).ok()?, 0)?;
    Some((moment.day(), moment.hour()))
}

/// The two decimal digits of a number below 100. Below ten a hexadecimal
/// digit is the decimal one.
pub open spec fn two_digits(n: int) -> Seq<char> {
    seq![crate::text::hex_digit(n / 10), crate::text::hex_digit(n % 10)]
}

/// The time of day, in UTC, of the moment `secs` seconds after the start of
/// 1970: hours, minutes and seconds, two digits each, with colons between.
pub open spec fn time_of_day_text(secs: u64) -> Seq<char> {
    let second = secs as int;
    two_digits((second % 86_400) / 3_600) + seq![':'] + two_digits((second % 3_600) / 60) + seq![
        ':',
    ] + two_digits(second % 60)
}

/// `DateTime::from_timestamp` of `chrono`, written with `format` as
/// `%H:%M:%S`.
/// Claimed: there is a text exactly where the calendar reaches the reading,
/// and it is the time of day in UTC, each part on two digits.
#[verifier::external_body]
pub(crate) fn utc_clock_text(secs: u64) -> (r: Option<String>)
    ensures
        r is Some <==> utc_day_and_hour_of(secs) is Some,
        r matches Some(text) ==> text@ == time_of_day_text(secs),
{
    let moment = DateTime::from_timestamp(i64::try_from(secs).ok()?, 0)?;
    Some(moment.format("%H:%M:%S").to_string())
}

} // verus!
