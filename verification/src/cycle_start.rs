//! The start of the cycle: a calendar date and a time of day, validated and
//! turned into an instant by the `chrono` crate.

use vstd::prelude::*;
use chrono::{DateTime, NaiveDate, NaiveDateTime, NaiveTime};
use crate::error::{ContractError, InvalidReason};

verus! {

/// The earliest year that a `chrono::NaiveDate` can hold.
pub const MIN_YEAR: i32 = -262_143;

/// The latest year that a `chrono::NaiveDate` can hold.
pub const MAX_YEAR: i32 = 262_142;

/// Whether `year` has a 29th of February in the proleptic Gregorian calendar.
pub open spec fn is_leap_year(year: int) -> bool {
    year % 4 == 0 && (year % 100 != 0 || year % 400 == 0)
}

/// The number of days of `month` in `year`, for a month from 1 to 12.
pub open spec fn days_in_month(year: int, month: int) -> int {
    if month == 2 {
        if is_leap_year(year) {
            29
        } else {
            28
        }
    } else if month == 4 || month == 6 || month == 9 || month == 11 {
        30
    } else {
        31
    }
}

/// Whether the three numbers denote a day of the proleptic Gregorian calendar
/// in a year that `chrono` can hold.
pub open spec fn is_calendar_date(year: int, month: int, day: int) -> bool {
    &&& MIN_YEAR <= year <= MAX_YEAR
    &&& 1 <= month <= 12
    &&& 1 <= day <= days_in_month(year, month)
}

/// Whether the three numbers denote a time of day, without leap seconds.
pub open spec fn is_time_of_day(hour: int, minute: int, second: int) -> bool {
    &&& 0 <= hour < 24
    &&& 0 <= minute < 60
    &&& 0 <= second < 60
}

/// The signed number of nanoseconds from 1970-01-01 00:00:00 to the given date
/// and time, as `chrono` computes it: `None` where the fields denote no date
/// and time, or where the number does not fit an `i64`.
pub uninterp spec fn unix_nanos(
    year: int,
    month: int,
    day: int,
    hour: int,
    minute: int,
    second: int,
) -> Option<i64>;

/// Asks `chrono::NaiveDate::from_ymd_opt` whether the day exists.
///
/// Trusted, not proved: chrono builds a date exactly for the days of the
/// proleptic Gregorian calendar from the year -262143 to the year 262142.
#[verifier::external_body]
fn date_exists(year: i32, month: u32, day: u32) -> (exists: bool)
    ensures
        exists == is_calendar_date(year as int, month as int, day as int),
{
    NaiveDate::from_ymd_opt(year, month, day).is_some()
}

/// Asks `chrono::NaiveTime::from_hms_nano_opt`, with no nanoseconds, whether
/// the time of day exists.
///
/// Trusted, not proved: chrono builds such a time exactly for an hour below
/// 24, a minute below 60 and a second below 60.
#[verifier::external_body]
fn time_exists(hour: u32, minute: u32, second: u32) -> (exists: bool)
    ensures
        exists == is_time_of_day(hour as int, minute as int, second as int),
{
    NaiveTime::from_hms_nano_opt(hour, minute, second, 0).is_some()
}

/// Has chrono build the date and time from the six fields
/// (`NaiveDate::from_ymd_opt`, `NaiveTime::from_hms_nano_opt` with no
/// nanoseconds, `NaiveDateTime::new`) and measure how far it lies from
/// `DateTime::UNIX_EPOCH`: `NaiveDateTime::signed_duration_since`, then
/// `TimeDelta::num_nanoseconds`.
///
/// Trusted, not proved: the result is a function of the six fields alone. What
/// that function is on given fields is left to chrono.
#[verifier::external_body]
fn nanos_since_unix_epoch(
    year: i32,
    month: u32,
    day: u32,
    hour: u32,
    minute: u32,
    second: u32,
) -> (nanos: Option<i64>)
    ensures
        nanos == unix_nanos(
            year as int,
            month as int,
            day as int,
            hour as int,
            minute as int,
            second as int,
        ),
{
    let date = NaiveDate::from_ymd_opt(year, month, day)?;
    let time = NaiveTime::from_hms_nano_opt(hour, minute, second, 0)?;
    let start = NaiveDateTime::new(date, time);
    start.signed_duration_since(DateTime::UNIX_EPOCH.naive_utc()).num_nanoseconds()
}

/// The start of the cycle in calendar fields. Nothing finer than a second is
/// kept.
#[derive(Clone, Copy, Debug, PartialEq, Eq, Structural)]
pub struct CycleStartTime {
    pub year: i32,
    pub month: u32,
    pub day: u32,
    pub hour: u32,
    pub minute: u32,
    pub second: u32,
}

/// What an instant measured by chrono becomes: nanoseconds since the Unix
/// epoch in a `u64`, or `Overflow` where chrono had no `i64` for it or where
/// it lies before the epoch.
pub open spec fn spec_instant_from_nanos(nanos: Option<i64>) -> Result<u64, ContractError> {
    match nanos {
        Some(n) => if n >= 0 {
            Ok(n as u64)
        } else {
            Err(ContractError::Overflow)
        },
        None => Err(ContractError::Overflow),
    }
}

/// Turns a signed count of nanoseconds since the Unix epoch into an instant.
/// The conversion is checked: a count that is missing or negative is reported,
/// never wrapped.
pub fn instant_from_nanos(nanos: Option<i64>) -> (r: Result<u64, ContractError>)
    ensures
        r == spec_instant_from_nanos(nanos),
{
    match nanos {
        Some(n) => {
            if n >= 0 {
                Ok(n as u64)
            } else {
                Err(ContractError::Overflow)
            }
        },
        None => Err(ContractError::Overflow),
    }
}

impl CycleStartTime {
    /// Whether the fields denote a real date and time.
    pub open spec fn is_valid(&self) -> bool {
        &&& is_calendar_date(self.year as int, self.month as int, self.day as int)
        &&& is_time_of_day(self.hour as int, self.minute as int, self.second as int)
    }

    /// The verdict of `validate`: the date is judged before the time.
    pub open spec fn spec_validate(&self) -> Result<(), ContractError> {
        if !is_calendar_date(self.year as int, self.month as int, self.day as int) {
            Err(ContractError::InvalidParameter { reason: InvalidReason::InvalidDate })
        } else if !is_time_of_day(self.hour as int, self.minute as int, self.second as int) {
            Err(ContractError::InvalidParameter { reason: InvalidReason::InvalidTime })
        } else {
            Ok(())
        }
    }

    /// The instant of a valid start, and the failure of any other.
    pub open spec fn spec_epoch_nanos(&self) -> Result<u64, ContractError> {
        match self.spec_validate() {
            Err(e) => Err(e),
            Ok(_) => spec_instant_from_nanos(
                unix_nanos(
                    self.year as int,
                    self.month as int,
                    self.day as int,
                    self.hour as int,
                    self.minute as int,
                    self.second as int,
                ),
            ),
        }
    }

    /// Accepts the fields if and only if they denote a real date and time.
    pub fn validate(&self) -> (r: Result<(), ContractError>)
        ensures
            r == self.spec_validate(),
            r is Ok <==> self.is_valid(),
    {
        if !date_exists(self.year, self.month, self.day) {
            return Err(ContractError::InvalidParameter { reason: InvalidReason::InvalidDate });
        }
        if !time_exists(self.hour, self.minute, self.second) {
            return Err(ContractError::InvalidParameter { reason: InvalidReason::InvalidTime });
        }
        Ok(())
    }

    /// The start of the cycle as nanoseconds since the Unix epoch.
    ///
    /// Fails with `InvalidParameter` where the fields denote no date and time,
    /// and with `Overflow` where the instant lies before the epoch or beyond
    /// what chrono counts in nanoseconds.
    pub fn epoch_nanos(&self) -> (r: Result<u64, ContractError>)
        ensures
            r == self.spec_epoch_nanos(),
    {
        match self.validate() {
            Err(e) => Err(e),
            Ok(_) => instant_from_nanos(
                nanos_since_unix_epoch(
                    self.year,
                    self.month,
                    self.day,
                    self.hour,
                    self.minute,
                    self.second,
                ),
            ),
        }
    }
}

/// Validation accepts the real dates and times and no others, and what it
/// refuses it refuses with `InvalidParameter`. A month after the twelfth, a
/// day after the last of its month, an hour after the twenty-third: none of
/// them passes.
pub proof fn lemma_validate_accepts_exactly_the_real(start: CycleStartTime)
    ensures
        start.spec_validate() is Ok <==> start.is_valid(),
        !start.is_valid() ==> start.spec_validate() matches Err(
            ContractError::InvalidParameter { .. },
        ),
        start.month > 12 ==> !start.is_valid(),
        start.day > 31 ==> !start.is_valid(),
        start.hour > 23 ==> !start.is_valid(),
{
}

/// Only a start that passes validation has an instant.
pub proof fn lemma_only_a_real_start_has_an_instant(start: CycleStartTime)
    ensures
        start.spec_epoch_nanos() is Ok ==> start.is_valid(),
        !start.is_valid() ==> start.spec_epoch_nanos() == Err::<u64, ContractError>(
            start.spec_validate()->Err_0,
        ),
{
}

} // verus!
