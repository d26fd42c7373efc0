//! The current date and time, read from the system clock.

use crate::calendar::{
    days_before_month, days_before_year, days_in_month, is_leap_year,
    lemma_days_before_month_values, lemma_days_before_year_bounds, month_length, year_length,
};
use crate::datetime::DateTime;
use crate::error::{fails_with, TimeError};
use crate::timezone::TimeZone;
use std::time::{Duration, SystemTimeError, UNIX_EPOCH};
use vstd::prelude::*;

verus! {

/// The error of `SystemTime::elapsed` and `SystemTime::duration_since`: the
/// other point in time lies after this one. Nothing in it is read here.
#[verifier::external_type_specification]
#[verifier::external_body]
pub struct ExSystemTimeError(SystemTimeError);

/// `SystemTime::elapsed`, called on `UNIX_EPOCH`: the time from the epoch to
/// the system clock's present reading, or an error where the clock stands
/// before the epoch. Nothing is claimed about the reading.
#[verifier::external_body]
fn elapsed_since_epoch() -> (elapsed: Result<Duration, SystemTimeError>) {
    UNIX_EPOCH.elapsed()
}

/// `Duration::as_secs` returns the whole seconds of the duration. Nothing
/// is claimed about their number.
pub assume_specification[ Duration::as_secs ](duration: &Duration) -> (seconds: u64)
;

/// The local reading that `adjust_second_with_timezone` makes of a clock
/// reading: clock plus offset, wrapped into 64 bits and read as a signed
/// number. Where clock plus offset lies in `0..=i64::MAX` it is that sum.
pub open spec fn clock_local_seconds(clock_seconds: int, timezone: TimeZone) -> int {
    let wrapped = (clock_seconds + timezone.offset()) % 0x1_0000_0000_0000_0000;
    if wrapped >= 0x8000_0000_0000_0000 {
        wrapped - 0x1_0000_0000_0000_0000
    } else {
        wrapped
    }
}

/// Adds the offset of `timezone` to `total_seconds`. The sum is taken
/// modulo 2^64.
pub fn adjust_second_with_timezone(total_seconds: u64, timezone: TimeZone) -> (adjusted: u64)
    ensures
        adjusted == (total_seconds + timezone.offset()) % 0x1_0000_0000_0000_0000,
        0 <= total_seconds + timezone.offset() <= u64::MAX ==> adjusted == total_seconds
            + timezone.offset(),
{
    let sum: i128 = total_seconds as i128 + timezone.offset_in_seconds() as i128;
    if sum < 0 {
        (sum + 0x1_0000_0000_0000_0000) as u64
    } else if sum >= 0x1_0000_0000_0000_0000 {
        (sum - 0x1_0000_0000_0000_0000) as u64
    } else {
        sum as u64
    }
}

/// The length of `year` in days.
fn days_in_year(year: u64) -> (days: u64)
    ensures
        days == year_length(year as int),
{
    if is_leap_year(year) {
        366
    } else {
        365
    }
}

/// Finds the date and time that lie `adjusted_seconds` after 1970-01-01
/// 00:00:00 in `timezone`, the seconds being counted in that zone. It fails
/// for a negative count.
pub fn calculate_date_since_epoch(adjusted_seconds: i64, timezone: TimeZone) -> (result: Result<
    DateTime,
    String,
>)
    ensures
        adjusted_seconds < 0 ==> fails_with(result, TimeError::BeforeEpoch),
        adjusted_seconds >= 0 ==> (result matches Ok(date) && date.represents(
            adjusted_seconds - timezone.offset(),
            timezone,
        )),
{
    if adjusted_seconds < 0 {
        return Err(TimeError::BeforeEpoch.message());
    }
    let total: u64 = adjusted_seconds as u64;
    let mut days: u64 = total / 86_400;
    let remainder: u64 = total % 86_400;
    let hour: u64 = remainder / 3_600;
    let minute: u64 = (remainder % 3_600) / 60;
    let second: u64 = remainder % 60;

    let mut year: u64 = 1970;
    while days >= days_in_year(year)
        invariant
            1970 <= year,
            days_before_year(year as int) + days == total / 86_400,
        decreases days,
    {
        proof {
            lemma_days_before_year_bounds(year as int);
        }
        days = days - days_in_year(year);
        year = year + 1;
    }
    proof {
        lemma_days_before_month_values(year as int);
    }
    let mut month: u64 = 1;
    while days >= days_in_month(month, year)
        invariant
            1 <= month <= 12,
            days_before_year(year as int) + days_before_month(month as int, year as int) + days
                == total / 86_400,
            days < year_length(year as int) - days_before_month(month as int, year as int),
        decreases 12 - month,
    {
        proof {
            lemma_days_before_month_values(year as int);
            assert(days_before_month(month + 1, year as int) == days_before_month(
                month as int,
                year as int,
            ) + month_length(month as int, year as int));
        }
        days = days - days_in_month(month, year);
        month = month + 1;
    }
    let day: u64 = days + 1;
    DateTime::new(year, month, day, hour, minute, second, timezone)
}

/// Reads a clock that stands `clock_seconds` after the Unix epoch in
/// `timezone`.
pub fn date_from_clock_seconds(clock_seconds: u64, timezone: TimeZone) -> (result: Result<
    DateTime,
    String,
>)
    ensures
        clock_local_seconds(clock_seconds as int, timezone) < 0 ==> fails_with(
            result,
            TimeError::BeforeEpoch,
        ),
        clock_local_seconds(clock_seconds as int, timezone) >= 0 ==> (result matches Ok(date)
            && date.represents(
            clock_local_seconds(clock_seconds as int, timezone) - timezone.offset(),
            timezone,
        )),
        0 <= clock_seconds + timezone.offset() <= i64::MAX ==> (result matches Ok(date)
            && date.represents(clock_seconds as int, timezone)),
{
    let adjusted = adjust_second_with_timezone(clock_seconds, timezone);
    let local: i64 = if adjusted <= 0x7fff_ffff_ffff_ffff {
        adjusted as i64
    } else {
        (adjusted as i128 - 0x1_0000_0000_0000_0000) as i64
    };
    calculate_date_since_epoch(local, timezone)
}

/// Returns the current date and time in `timezone`, by the system clock.
/// It fails where the clock stands before the epoch, or where the reading
/// in `timezone` would lie before 1970-01-01.
pub fn now(timezone: TimeZone) -> (result: Result<DateTime, String>)
    ensures
        result matches Ok(date) ==> date.is_valid() && date.year >= 1970 && date.timezone
            == timezone,
        result is Err ==> fails_with(result, TimeError::BeforeEpoch) || fails_with(
            result,
            TimeError::ClockBeforeEpoch,
        ),
{
    match elapsed_since_epoch() {
        Ok(elapsed) => date_from_clock_seconds(elapsed.as_secs(), timezone),
        Err(_) => Err(TimeError::ClockBeforeEpoch.message()),
    }
}

} // verus!
