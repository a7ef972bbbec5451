//! UTC instants broken down into calendar fields.

use chrono::{Datelike, Timelike};
use vstd::prelude::*;

verus! {

/// Seconds in one day.
pub const SECONDS_PER_DAY: i64 = 86_400;

/// A UTC instant as calendar fields, to the whole second.
#[derive(Clone, Copy, Debug, PartialEq, Eq, Structural)]
pub struct UtcDateTime {
    /// Year of the proleptic Gregorian calendar; may be negative.
    pub year: i32,
    /// Month of the year, 1 to 12.
    pub month: u32,
    /// Day of the month, 1 to 31.
    pub day: u32,
    /// Hour of the day, 0 to 23.
    pub hour: u32,
    /// Minute of the hour, 0 to 59.
    pub minute: u32,
    /// Second of the minute, 0 to 59.
    pub second: u32,
    /// Days since Sunday: 0 for Sunday, 1 for Monday, up to 6 for Saturday.
    pub weekday: u32,
}

impl UtcDateTime {
    /// Every field lies in the range its meaning allows.
    pub open spec fn valid(&self) -> bool {
        &&& 1 <= self.month <= 12
        &&& 1 <= self.day <= 31
        &&& self.hour <= 23
        &&& self.minute <= 59
        &&& self.second <= 59
        &&& self.weekday <= 6
    }

    /// Tells whether every field lies in its range.
    pub fn is_valid(&self) -> (ok: bool)
        ensures
            ok == self.valid(),
    {
        1 <= self.month && self.month <= 12 && 1 <= self.day && self.day <= 31 && self.hour <= 23
            && self.minute <= 59 && self.second <= 59 && self.weekday <= 6
    }
}

/// Seconds elapsed since the last UTC midnight at `secs` seconds after the
/// Unix epoch (before it, where `secs` is negative).
pub open spec fn second_of_day(secs: i64) -> int {
    secs as int % (SECONDS_PER_DAY as int)
}

/// The calendar fields that chrono gives the instant `secs` seconds after the
/// Unix epoch, or `None` where the instant lies outside the years chrono can
/// represent.
pub uninterp spec fn utc_calendar(secs: i64) -> Option<UtcDateTime>;

/// Breaks a Unix timestamp down with `chrono::DateTime::from_timestamp`,
/// read through chrono's `Datelike` and `Timelike` accessors and
/// `Weekday::num_days_from_sunday`.
///
/// Trusted: the result is a function of `secs` alone, named `utc_calendar`.
/// Each field lies in the range chrono documents for its accessor, and the
/// time of day is the split of the seconds since midnight into hours, minutes
/// and seconds.
#[verifier::external_body]
pub(crate) fn utc_fields(secs: i64) -> (fields: Option<UtcDateTime>)
    ensures
        fields == utc_calendar(secs),
        fields matches Some(t) ==> {
            &&& t.valid()
            &&& t.hour == second_of_day(secs) / 3600
            &&& t.minute == second_of_day(secs) / 60 % 60
            &&& t.second == second_of_day(secs) % 60
        },
{
    match chrono::DateTime::from_timestamp(secs, 0) {
        Some(at) => Some(
            UtcDateTime {
                year: at.year(),
                month: at.month(),
                day: at.day(),
                hour: at.hour(),
                minute: at.minute(),
                second: at.second(),
                weekday: at.weekday().num_days_from_sunday(),
            },
        ),
        None => None,
    }
}

} // verus!
