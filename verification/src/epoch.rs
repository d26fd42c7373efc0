//! Conversion between calendar fields and seconds since 1970-01-01 00:00:00,
//! both read in one zone.

use crate::calendar::{
    civil_seconds, days_before_month, days_before_year, days_in_month, is_leap_year,
    lemma_days_before_month_values, lemma_days_before_year_bounds,
    lemma_days_before_year_monotonic, lemma_valid_fields_within_year, month_length, valid_fields,
    year_length,
};
use crate::datetime::DateTime;
use crate::timezone::TimeZone;
use vstd::prelude::*;

verus! {

/// The first second count that lies beyond the last year a `u64` can name.
pub open spec fn seconds_limit() -> int {
    86400 * days_before_year(0x1_0000_0000_0000_0000)
}

/// Counts the seconds from 1970-01-01 00:00:00 to the given fields: the
/// whole years since 1970, the whole months of the last year, then the days
/// and the time of day. Whatever the fields, the count stays under 2^90.
pub(crate) fn seconds_since_epoch(
    year: u64,
    month: u64,
    day: u64,
    hour: u64,
    minute: u64,
    second: u64,
) -> (total: i128)
    ensures
        total == civil_seconds(
            year as int,
            month as int,
            day as int,
            hour as int,
            minute as int,
            second as int,
        ),
        -86400 <= total < 0x400_0000_0000_0000_0000_0000,
{
    let mut year_days: i128 = 0;
    let mut y: u64 = 1970;
    while y < year
        invariant
            1970 <= y,
            y <= year || y == 1970,
            year_days == days_before_year(y as int),
            0 <= year_days <= 366 * (y - 1970),
        decreases year - y,
    {
        let length: i128 = if is_leap_year(y) {
            366
        } else {
            365
        };
        year_days = year_days + length;
        y = y + 1;
    }
    proof {
        lemma_days_before_year_bounds(year as int);
    }
    let mut month_days: i128 = 0;
    let mut m: u64 = 1;
    while m < month
        invariant
            1 <= m,
            m <= month || m == 1,
            month_days == days_before_month(m as int, year as int),
            0 <= month_days <= 31 * (m - 1),
        decreases month - m,
    {
        month_days = month_days + days_in_month(m, year) as i128;
        m = m + 1;
    }
    (year_days + month_days + (day as i128 - 1)) * 86_400 + hour as i128 * 3_600 + minute as i128
        * 60 + second as i128
}

/// The length of `year` in seconds.
fn seconds_in_year(year: u64) -> (seconds: i128)
    ensures
        seconds == year_length(year as int) * 86400,
{
    if is_leap_year(year) {
        366 * 86_400
    } else {
        365 * 86_400
    }
}

/// The length of `month` of `year` in seconds.
fn seconds_in_month(month: u64, year: u64) -> (seconds: i128)
    ensures
        seconds == month_length(month as int, year as int) * 86400,
{
    days_in_month(month, year) as i128 * 86_400
}

/// Finds the date and time that lie `seconds` after 1970-01-01 00:00:00: it
/// takes whole years off the count while a whole year is left, then whole
/// months, and reads day and time of day from the rest.
pub(crate) fn date_from_seconds(seconds: i128, timezone: TimeZone) -> (date: DateTime)
    requires
        0 <= seconds < seconds_limit(),
    ensures
        date.is_valid(),
        date.year >= 1970,
        date.timezone == timezone,
        date.local_seconds() == seconds,
{
    let mut remaining: i128 = seconds;
    let mut year: u64 = 1970;
    while remaining >= seconds_in_year(year)
        invariant
            1970 <= year,
            0 <= remaining,
            days_before_year(year as int) * 86400 + remaining == seconds,
            seconds < seconds_limit(),
        decreases remaining,
    {
        proof {
            assert(days_before_year(year + 1) == days_before_year(year as int) + year_length(
                year as int,
            ));
            assert(year < u64::MAX);
        }
        remaining = remaining - seconds_in_year(year);
        year = year + 1;
    }
    proof {
        lemma_days_before_month_values(year as int);
    }
    let mut month: u64 = 1;
    while remaining >= seconds_in_month(month, year)
        invariant
            1 <= month <= 12,
            0 <= remaining,
            (days_before_year(year as int) + days_before_month(month as int, year as int)) * 86400
                + remaining == seconds,
            remaining < (year_length(year as int) - days_before_month(month as int, year as int))
                * 86400,
        decreases 12 - month,
    {
        proof {
            lemma_days_before_month_values(year as int);
            assert(days_before_month(month + 1, year as int) == days_before_month(
                month as int,
                year as int,
            ) + month_length(month as int, year as int));
        }
        remaining = remaining - seconds_in_month(month, year);
        month = month + 1;
    }
    let rest: u64 = remaining as u64;
    let day: u64 = rest / 86_400 + 1;
    let time: u64 = rest % 86_400;
    let hour: u64 = time / 3_600;
    let minute: u64 = (time % 3_600) / 60;
    let second: u64 = time % 60;
    DateTime { year, month, day, hour, minute, second, timezone }
}

/// The second count of a valid date, in any year that a `u64` can name,
/// lies from 0 up to the limit.
pub proof fn lemma_seconds_under_limit(
    year: int,
    month: int,
    day: int,
    hour: int,
    minute: int,
    second: int,
)
    requires
        year <= u64::MAX,
        valid_fields(year, month, day, hour, minute, second),
    ensures
        0 <= civil_seconds(year, month, day, hour, minute, second) < seconds_limit(),
{
    lemma_valid_fields_within_year(year, month, day, hour, minute, second);
    lemma_days_before_year_bounds(year);
    lemma_days_before_year_bounds(0x1_0000_0000_0000_0000);
    if year >= 1970 {
        lemma_days_before_year_monotonic(year + 1, 0x1_0000_0000_0000_0000);
    }
}

/// The limit lies beyond every second count that an `i64` and a zone offset
/// can add up to, and well inside an `i128`.
pub proof fn lemma_seconds_limit_is_wide()
    ensures
        0x1_0000_0000_0000_0000 < seconds_limit() < 0x400_0000_0000_0000_0000_0000,
{
    lemma_days_before_year_bounds(0x1_0000_0000_0000_0000);
}

/// The year in which the second `seconds` after 1970-01-01 00:00:00 lies,
/// searched upward from `year`.
proof fn lemma_year_exists(seconds: int, year: int) -> (found: int)
    requires
        1970 <= year,
        days_before_year(year) * 86400 <= seconds,
    ensures
        year <= found,
        days_before_year(found) * 86400 <= seconds < days_before_year(found + 1) * 86400,
    decreases seconds - days_before_year(year) * 86400,
{
    assert(days_before_year(year + 1) == days_before_year(year) + year_length(year));
    if seconds < days_before_year(year + 1) * 86400 {
        year
    } else {
        lemma_year_exists(seconds, year + 1)
    }
}

/// Every second count from 0 up to the limit is the count of a valid date
/// from 1970 on.
pub proof fn lemma_date_exists(seconds: int, timezone: TimeZone) -> (date: DateTime)
    requires
        0 <= seconds < seconds_limit(),
    ensures
        date.is_valid(),
        date.year >= 1970,
        date.timezone == timezone,
        date.local_seconds() == seconds,
{
    let year = lemma_year_exists(seconds, 1970);
    if year >= 0x1_0000_0000_0000_0000 {
        lemma_days_before_year_monotonic(0x1_0000_0000_0000_0000, year);
    }
    lemma_days_before_month_values(year);
    let day_of_year = seconds / 86400 - days_before_year(year);
    assert(days_before_year(year + 1) == days_before_year(year) + year_length(year));
    assert(0 <= day_of_year < year_length(year));
    let month: int = if day_of_year < days_before_month(2, year) {
        1
    } else if day_of_year < days_before_month(3, year) {
        2
    } else if day_of_year < days_before_month(4, year) {
        3
    } else if day_of_year < days_before_month(5, year) {
        4
    } else if day_of_year < days_before_month(6, year) {
        5
    } else if day_of_year < days_before_month(7, year) {
        6
    } else if day_of_year < days_before_month(8, year) {
        7
    } else if day_of_year < days_before_month(9, year) {
        8
    } else if day_of_year < days_before_month(10, year) {
        9
    } else if day_of_year < days_before_month(11, year) {
        10
    } else if day_of_year < days_before_month(12, year) {
        11
    } else {
        12
    };
    let day = day_of_year - days_before_month(month, year) + 1;
    let time = seconds % 86400;
    DateTime {
        year: year as u64,
        month: month as u64,
        day: day as u64,
        hour: (time / 3600) as u64,
        minute: ((time % 3600) / 60) as u64,
        second: (time % 60) as u64,
        timezone,
    }
}

} // verus!
