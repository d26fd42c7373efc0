//! Gregorian calendar arithmetic: leap years, month lengths, and the day
//! counts from which epoch seconds are built.

use vstd::prelude::*;

verus! {

/// The Gregorian leap-year rule: every fourth year, except the centuries
/// that are not multiples of 400.
pub open spec fn leap_year(year: int) -> bool {
    year % 4 == 0 && (year % 100 != 0 || year % 400 == 0)
}

/// Number of days in `year`.
pub open spec fn year_length(year: int) -> int {
    if leap_year(year) {
        366
    } else {
        365
    }
}

/// Number of days in `month` of `year`; 0 when `month` is not in 1..=12.
pub open spec fn month_length(month: int, year: int) -> int {
    if month == 1 || month == 3 || month == 5 || month == 7 || month == 8 || month == 10 || month
        == 12 {
        31
    } else if month == 4 || month == 6 || month == 9 || month == 11 {
        30
    } else if month == 2 {
        if leap_year(year) {
            29
        } else {
            28
        }
    } else {
        0
    }
}

/// Days from 1970-01-01 to the first day of `year`: the lengths of the years
/// in `[1970, year)` added up. It is 0 for every year up to 1970.
pub open spec fn days_before_year(year: int) -> int
    decreases year,
{
    if year <= 1970 {
        0
    } else {
        days_before_year(year - 1) + year_length(year - 1)
    }
}

/// Days from the first day of `year` to the first day of `month`: the
/// lengths of the months in `[1, month)` added up.
pub open spec fn days_before_month(month: int, year: int) -> int
    decreases month,
{
    if month <= 1 {
        0
    } else {
        days_before_month(month - 1, year) + month_length(month - 1, year)
    }
}

/// Seconds from 1970-01-01 00:00:00 to the given calendar fields, both read
/// in the same zone.
pub open spec fn civil_seconds(
    year: int,
    month: int,
    day: int,
    hour: int,
    minute: int,
    second: int,
) -> int {
    (days_before_year(year) + days_before_month(month, year) + (day - 1)) * 86400 + hour * 3600
        + minute * 60 + second
}

/// Whether the fields name a day that exists and a time of day on the
/// 24-hour clock.
pub open spec fn valid_fields(
    year: int,
    month: int,
    day: int,
    hour: int,
    minute: int,
    second: int,
) -> bool {
    &&& 1 <= month <= 12
    &&& 1 <= day <= month_length(month, year)
    &&& 0 <= hour <= 23
    &&& 0 <= minute <= 59
    &&& 0 <= second <= 59
}

/// Determines whether `year` is a leap year.
pub fn is_leap_year(year: u64) -> (leap: bool)
    ensures
        leap == leap_year(year as int),
        leap <==> year % 4 == 0 && (year % 100 != 0 || year % 400 == 0),
{
    (year % 4 == 0 && year % 100 != 0) || (year % 400 == 0)
}

/// Returns the number of days in `month` of `year`, and 0 for a month
/// outside 1..=12.
pub fn days_in_month(month: u64, year: u64) -> (days: u64)
    ensures
        days == month_length(month as int, year as int),
        1 <= month <= 12 ==> 28 <= days <= 31,
        !(1 <= month <= 12) ==> days == 0,
{
    match month {
        1 | 3 | 5 | 7 | 8 | 10 | 12 => 31,
        4 | 6 | 9 | 11 => 30,
        2 => {
            if is_leap_year(year) {
                29
            } else {
                28
            }
        },
        _ => 0,
    }
}

/// The day count to the start of a year grows with the year.
pub proof fn lemma_days_before_year_monotonic(earlier: int, later: int)
    requires
        earlier <= later,
    ensures
        days_before_year(earlier) <= days_before_year(later),
    decreases later - earlier,
{
    if earlier < later {
        lemma_days_before_year_monotonic(earlier, later - 1);
    }
}

/// From 1970 on the count grows by at least 365 days a year.
pub proof fn lemma_days_before_year_gap(earlier: int, later: int)
    requires
        1970 <= earlier <= later,
    ensures
        days_before_year(later) - days_before_year(earlier) >= 365 * (later - earlier),
    decreases later - earlier,
{
    if earlier < later {
        lemma_days_before_year_gap(earlier, later - 1);
    }
}

/// Every year from 1970 on adds 365 or 366 days to the count.
pub proof fn lemma_days_before_year_bounds(year: int)
    ensures
        year <= 1970 ==> days_before_year(year) == 0,
        year >= 1970 ==> 365 * (year - 1970) <= days_before_year(year) <= 366 * (year - 1970),
    decreases year,
{
    if year > 1970 {
        lemma_days_before_year_bounds(year - 1);
    }
}

/// The day count to the start of each month, written out; the twelve months
/// together make up the year.
pub proof fn lemma_days_before_month_values(year: int)
    ensures
        days_before_month(1, year) == 0,
        days_before_month(2, year) == 31,
        days_before_month(3, year) == year_length(year) - 306,
        days_before_month(4, year) == year_length(year) - 275,
        days_before_month(5, year) == year_length(year) - 245,
        days_before_month(6, year) == year_length(year) - 214,
        days_before_month(7, year) == year_length(year) - 184,
        days_before_month(8, year) == year_length(year) - 153,
        days_before_month(9, year) == year_length(year) - 122,
        days_before_month(10, year) == year_length(year) - 92,
        days_before_month(11, year) == year_length(year) - 61,
        days_before_month(12, year) == year_length(year) - 31,
        days_before_month(13, year) == year_length(year),
{
    reveal_with_fuel(days_before_month, 14);
}

/// A valid date lies inside its year, and a valid time inside its day.
pub proof fn lemma_valid_fields_within_year(
    year: int,
    month: int,
    day: int,
    hour: int,
    minute: int,
    second: int,
)
    requires
        valid_fields(year, month, day, hour, minute, second),
    ensures
        0 <= days_before_month(month, year) + (day - 1) < days_before_month(month + 1, year),
        days_before_month(month + 1, year) <= year_length(year),
        0 <= hour * 3600 + minute * 60 + second < 86400,
        days_before_year(year) * 86400 <= civil_seconds(year, month, day, hour, minute, second),
        year >= 1970 ==> civil_seconds(year, month, day, hour, minute, second) < days_before_year(
            year + 1,
        ) * 86400,
{
    lemma_days_before_month_values(year);
    lemma_days_before_year_bounds(year);
    if year >= 1970 {
        assert(days_before_year(year + 1) == days_before_year(year) + year_length(year));
    }
}

/// Two valid dates from 1970 on that are equally many seconds after the
/// epoch are the same date: `civil_seconds` is one-to-one on them.
pub proof fn lemma_civil_seconds_injective(
    year1: int,
    month1: int,
    day1: int,
    hour1: int,
    minute1: int,
    second1: int,
    year2: int,
    month2: int,
    day2: int,
    hour2: int,
    minute2: int,
    second2: int,
)
    requires
        year1 >= 1970,
        year2 >= 1970,
        valid_fields(year1, month1, day1, hour1, minute1, second1),
        valid_fields(year2, month2, day2, hour2, minute2, second2),
        civil_seconds(year1, month1, day1, hour1, minute1, second1) == civil_seconds(
            year2,
            month2,
            day2,
            hour2,
            minute2,
            second2,
        ),
    ensures
        year1 == year2,
        month1 == month2,
        day1 == day2,
        hour1 == hour2,
        minute1 == minute2,
        second1 == second2,
{
    lemma_valid_fields_within_year(year1, month1, day1, hour1, minute1, second1);
    lemma_valid_fields_within_year(year2, month2, day2, hour2, minute2, second2);
    if year1 < year2 {
        lemma_days_before_year_monotonic(year1 + 1, year2);
    }
    if year2 < year1 {
        lemma_days_before_year_monotonic(year2 + 1, year1);
    }
    assert(year1 == year2);
    lemma_days_before_month_values(year1);
    let days1 = days_before_month(month1, year1) + (day1 - 1);
    let days2 = days_before_month(month2, year2) + (day2 - 1);
    let time1 = hour1 * 3600 + minute1 * 60 + second1;
    let time2 = hour2 * 3600 + minute2 * 60 + second2;
    assert(days1 * 86400 + time1 == days2 * 86400 + time2);
    assert(days1 == days2);
    assert(month1 == month2);
}

} // verus!
