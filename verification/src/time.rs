//! Calendar dates and times, and their conversion from and to epoch seconds.

use chrono::{Datelike, Timelike};
use vstd::prelude::*;

verus! {

/// The first year that a date can lie in.
pub const MIN_YEAR: i32 = -262143;

/// The last year that a date can lie in.
pub const MAX_YEAR: i32 = 262142;

/// Whether a year of the proleptic Gregorian calendar has a 29th of February.
pub open spec fn is_leap_year(year: int) -> bool {
    year % 4 == 0 && (year % 100 != 0 || year % 400 == 0)
}

/// The number of days of a month, for `month` from 1 to 12.
pub open spec fn days_in_month(year: int, month: int) -> int {
    if month == 2 {
        if is_leap_year(year) {
            29
        } else {
            28
        }
    } else if month == 4 || month == 6 || month == 9 || month == 11 {
        30
    } else {
        31
    }
}

/// Whether year, month and day name a day of the proleptic Gregorian calendar
/// between the years [`MIN_YEAR`] and [`MAX_YEAR`].
pub open spec fn is_calendar_date(year: int, month: int, day: int) -> bool {
    &&& MIN_YEAR <= year <= MAX_YEAR
    &&& 1 <= month <= 12
    &&& 1 <= day <= days_in_month(year, month)
}

/// The epoch seconds of midnight UTC at the start of a calendar date, as `chrono` counts them.
pub uninterp spec fn utc_midnight_seconds(year: int, month: int, day: int) -> int;

/// The calendar time in UTC that `chrono` gives for a count of epoch seconds, where it has one.
pub uninterp spec fn utc_calendar_time(seconds: int) -> Option<NaiveDateTime>;

/// A calendar date and time of day, without a time zone.
#[derive(Clone, Copy, Debug, PartialEq, Eq, Structural)]
pub struct NaiveDateTime {
    pub year: i32,
    pub month: u32,
    pub day: u32,
    pub hour: u32,
    pub minute: u32,
    pub second: u32,
}

impl DeepView for NaiveDateTime {
    type V = NaiveDateTime;

    open spec fn deep_view(&self) -> NaiveDateTime {
        *self
    }
}

/// A day of the calendar.
#[derive(Clone, Copy, Debug, PartialEq, Eq, Structural)]
pub struct NaiveDate {
    year: i32,
    month: u32,
    day: u32,
}

impl View for NaiveDate {
    type V = (int, int, int);

    /// Year, month and day.
    closed spec fn view(&self) -> (int, int, int) {
        (self.year as int, self.month as int, self.day as int)
    }
}

/// Calls `chrono::NaiveDate::from_ymd_opt`, then `and_hms_opt(0, 0, 0)`, `and_utc` and
/// `DateTime::timestamp` on what it gave. The first returns a date exactly for the days
/// that exist, in the years that `NaiveDate` covers; no time is left out at midnight.
#[verifier::external_body]
fn midnight_seconds(year: i32, month: u32, day: u32) -> (r: Option<i64>)
    ensures
        r is Some <==> is_calendar_date(year as int, month as int, day as int),
        r matches Some(s) ==> s == utc_midnight_seconds(year as int, month as int, day as int),
{
    let date = chrono::NaiveDate::from_ymd_opt(year, month, day)?;
    Some(date.and_hms_opt(0, 0, 0)?.and_utc().timestamp())
}

/// Calls `chrono::DateTime::from_timestamp` with no nanoseconds, then `naive_local`, and
/// reads the six calendar fields of the result. `None` where the seconds are out of the
/// range of `chrono`.
#[verifier::external_body]
pub(crate) fn calendar_time(seconds: i64) -> (r: Option<NaiveDateTime>)
    ensures
        r == utc_calendar_time(seconds as int),
{
    let t = chrono::DateTime::from_timestamp(seconds, 0)?.naive_local();
    Some(
        NaiveDateTime {
            year: t.year(),
            month: t.month(),
            day: t.day(),
            hour: t.hour(),
            minute: t.minute(),
            second: t.second(),
        },
    )
}

impl NaiveDate {
    #[verifier::type_invariant]
    spec fn exists_in_calendar(self) -> bool {
        is_calendar_date(self.year as int, self.month as int, self.day as int)
    }

    /// The date of a year, month and day: `Some` exactly where that day exists.
    pub fn from_ymd_opt(year: i32, month: u32, day: u32) -> (r: Option<NaiveDate>)
        ensures
            r is Some <==> is_calendar_date(year as int, month as int, day as int),
            r matches Some(date) ==> date@ == (year as int, month as int, day as int),
    {
        match midnight_seconds(year, month, day) {
            Some(_) => Some(NaiveDate { year, month, day }),
            None => None,
        }
    }

    /// The year.
    pub fn year(&self) -> (r: i32)
        ensures
            r == self@.0,
            MIN_YEAR <= r <= MAX_YEAR,
    {
        proof {
            use_type_invariant(self);
        }
        self.year
    }

    /// The month, from 1 to 12.
    pub fn month(&self) -> (r: u32)
        ensures
            r == self@.1,
            1 <= r <= 12,
    {
        proof {
            use_type_invariant(self);
        }
        self.month
    }

    /// The day of the month, from 1.
    pub fn day(&self) -> (r: u32)
        ensures
            r == self@.2,
            1 <= r <= days_in_month(self@.0, self@.1),
    {
        proof {
            use_type_invariant(self);
        }
        self.day
    }

    /// The epoch seconds of midnight UTC at the start of this date.
    pub fn midnight_utc(&self) -> (r: i64)
        ensures
            r == utc_midnight_seconds(self@.0, self@.1, self@.2),
    {
        proof {
            use_type_invariant(self);
        }
        match midnight_seconds(self.year, self.month, self.day) {
            Some(seconds) => seconds,
            None => 0,
        }
    }
}

} // verus!
