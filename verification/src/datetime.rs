//! A date and time of day in a named zone.

use crate::calendar::{
    civil_seconds, days_before_year, days_in_month, lemma_civil_seconds_injective,
    lemma_days_before_month_values,
    lemma_days_before_year_bounds, lemma_days_before_year_gap, lemma_valid_fields_within_year,
    month_length, valid_fields,
};
use crate::epoch::{
    date_from_seconds, lemma_date_exists, lemma_seconds_limit_is_wide, lemma_seconds_under_limit,
    seconds_limit, seconds_since_epoch,
};
use crate::error::{fails_with, TimeError};
use crate::timedelta::{total_seconds_wide, TimeDelta};
use crate::timezone::TimeZone;
use vstd::prelude::*;
use vstd::std_specs::cmp::PartialEqSpecImpl;

verus! {

/// A point in civil time: a date, a time of day, and the zone in which the
/// two are read.
#[derive(Debug, Clone, Copy)]
pub struct DateTime {
    pub year: u64,
    pub month: u64,
    pub day: u64,
    pub hour: u64,
    pub minute: u64,
    pub second: u64,
    pub timezone: TimeZone,
}

/// The first check that the fields fail, in the order month, day, hour,
/// minute, second; `None` where they pass them all.
pub open spec fn validation_error(
    year: int,
    month: int,
    day: int,
    hour: int,
    minute: int,
    second: int,
) -> Option<TimeError> {
    if month < 1 || month > 12 {
        Some(TimeError::InvalidMonth)
    } else if day < 1 || day > month_length(month, year) {
        Some(TimeError::InvalidDay)
    } else if hour > 23 {
        Some(TimeError::InvalidHour)
    } else if minute > 59 {
        Some(TimeError::InvalidMinute)
    } else if second > 59 {
        Some(TimeError::InvalidSecond)
    } else {
        None
    }
}

impl DateTime {
    /// Whether the value names a day that exists and a time on the 24-hour
    /// clock: month in 1..=12, day in 1..=(length of the month), hour up to
    /// 23, minute and second up to 59.
    pub open spec fn is_valid(&self) -> bool {
        valid_fields(
            self.year as int,
            self.month as int,
            self.day as int,
            self.hour as int,
            self.minute as int,
            self.second as int,
        )
    }

    /// Seconds from 1970-01-01 00:00:00 in the value's own zone to the
    /// value.
    pub open spec fn local_seconds(&self) -> int {
        civil_seconds(
            self.year as int,
            self.month as int,
            self.day as int,
            self.hour as int,
            self.minute as int,
            self.second as int,
        )
    }

    /// Seconds from the Unix epoch, 1970-01-01 00:00:00 UTC, to the value.
    pub open spec fn unix_seconds(&self) -> int {
        self.local_seconds() - self.timezone.offset()
    }

    /// Whether the value is the reading, in `timezone`, of the instant
    /// `unix_seconds` after the epoch: a valid date from 1970 on, in that
    /// zone, that many seconds after the epoch.
    pub open spec fn represents(&self, unix_seconds: int, timezone: TimeZone) -> bool {
        &&& self.is_valid()
        &&& self.year >= 1970
        &&& self.timezone == timezone
        &&& self.unix_seconds() == unix_seconds
    }

    /// The reading in `timezone` of the instant `unix_seconds` after the
    /// epoch; `None` where that reading would lie before 1970-01-01, or in a
    /// year beyond those that a `u64` can name.
    pub open spec fn at(unix_seconds: int, timezone: TimeZone) -> Option<DateTime> {
        if unix_seconds + timezone.offset() < 0 || unix_seconds + timezone.offset()
            >= seconds_limit() {
            None
        } else {
            Some(choose|date: DateTime| date.represents(unix_seconds, timezone))
        }
    }

    /// Whether the two values have the same date and time of day, whatever
    /// their zones.
    pub open spec fn same_fields(&self, other: &DateTime) -> bool {
        &&& self.year == other.year
        &&& self.month == other.month
        &&& self.day == other.day
        &&& self.hour == other.hour
        &&& self.minute == other.minute
        &&& self.second == other.second
    }

    /// What date arithmetic returns when it arrives at `unix_seconds` after
    /// the epoch: a failure where that is before the epoch, or where the
    /// reading in `timezone` would lie before 1970-01-01; else the reading
    /// of that instant in `timezone`.
    pub open spec fn moved(
        unix_seconds: int,
        timezone: TimeZone,
        result: Result<DateTime, String>,
    ) -> bool {
        if unix_seconds < 0 {
            fails_with(result, TimeError::ResultBeforeEpoch)
        } else if unix_seconds + timezone.offset() < 0 {
            fails_with(result, TimeError::BeforeEpoch)
        } else {
            result matches Ok(date) && date.represents(unix_seconds, timezone) && DateTime::at(
                unix_seconds,
                timezone,
            ) == Some(date)
        }
    }

    /// An instant has one reading per zone.
    pub proof fn lemma_reading_unique(
        a: DateTime,
        b: DateTime,
        unix_seconds: int,
        timezone: TimeZone,
    )
        requires
            a.represents(unix_seconds, timezone),
            b.represents(unix_seconds, timezone),
        ensures
            a == b,
    {
        lemma_civil_seconds_injective(
            a.year as int,
            a.month as int,
            a.day as int,
            a.hour as int,
            a.minute as int,
            a.second as int,
            b.year as int,
            b.month as int,
            b.day as int,
            b.hour as int,
            b.minute as int,
            b.second as int,
        );
    }

    /// Round trip: a valid value from 1970 on, taken to seconds since the
    /// epoch and read back in its own zone, comes back unchanged.
    pub proof fn lemma_round_trip(date: DateTime)
        requires
            date.is_valid(),
            date.year >= 1970,
        ensures
            DateTime::at(date.unix_seconds(), date.timezone) == Some(date),
    {
        let unix_seconds = date.unix_seconds();
        lemma_seconds_under_limit(
            date.year as int,
            date.month as int,
            date.day as int,
            date.hour as int,
            date.minute as int,
            date.second as int,
        );
        assert(date.represents(unix_seconds, date.timezone));
        let chosen = choose|other: DateTime| other.represents(unix_seconds, date.timezone);
        DateTime::lemma_reading_unique(chosen, date, unix_seconds, date.timezone);
    }

    /// Every instant whose reading in `timezone` lies in 1970 or later, and
    /// in a year that a `u64` can name, has that reading.
    pub proof fn lemma_reading_exists(unix_seconds: int, timezone: TimeZone)
        requires
            0 <= unix_seconds + timezone.offset() < seconds_limit(),
        ensures
            DateTime::at(unix_seconds, timezone) matches Some(date) && date.represents(
                unix_seconds,
                timezone,
            ),
    {
        let date = lemma_date_exists(unix_seconds + timezone.offset(), timezone);
        assert(date.represents(unix_seconds, timezone));
    }

    /// Zone invariance: the readings of one instant in two zones are the
    /// same number of seconds after the epoch.
    pub proof fn lemma_zone_invariance(unix_seconds: int, first: TimeZone, second: TimeZone)
        requires
            0 <= unix_seconds + first.offset() < seconds_limit(),
            0 <= unix_seconds + second.offset() < seconds_limit(),
        ensures
            DateTime::at(unix_seconds, first) is Some,
            DateTime::at(unix_seconds, second) is Some,
            DateTime::at(unix_seconds, first)->0.unix_seconds() == DateTime::at(
                unix_seconds,
                second,
            )->0.unix_seconds(),
    {
        DateTime::lemma_reading_exists(unix_seconds, first);
        DateTime::lemma_reading_exists(unix_seconds, second);
    }

    /// A valid value is never more than a day's worth of offset before the
    /// epoch, and up to the year 290 billion its seconds since the epoch fit
    /// an `i64`.
    pub proof fn lemma_unix_seconds_bounds(date: DateTime)
        requires
            date.is_valid(),
        ensures
            -50400 <= date.unix_seconds(),
            date.year <= 1970 ==> date.unix_seconds() < 31_622_400 + 43200,
            date.year >= 1970 ==> date.unix_seconds() < 31_622_400 * (date.year - 1969) + 43200,
            date.year <= 290_000_000_000 ==> date.unix_seconds() <= i64::MAX,
    {
        lemma_valid_fields_within_year(
            date.year as int,
            date.month as int,
            date.day as int,
            date.hour as int,
            date.minute as int,
            date.second as int,
        );
        lemma_days_before_year_bounds(date.year as int);
        lemma_days_before_year_bounds(date.year + 1);
    }

    /// Date arithmetic has room: a valid value up to the year 18 * 10^18
    /// can be moved by any span, forward or backward, without leaving the
    /// years that a `u64` can name.
    pub proof fn lemma_span_fits(date: DateTime, delta: TimeDelta)
        requires
            date.is_valid(),
            date.year <= 18_000_000_000_000_000_000,
        ensures
            date.unix_seconds() + delta.total_seconds() + date.timezone.offset() < seconds_limit(),
            date.unix_seconds() - delta.total_seconds() + date.timezone.offset() < seconds_limit(),
    {
        lemma_valid_fields_within_year(
            date.year as int,
            date.month as int,
            date.day as int,
            date.hour as int,
            date.minute as int,
            date.second as int,
        );
        lemma_days_before_year_bounds(date.year as int);
        lemma_days_before_year_bounds(date.year + 1);
        if date.year >= 1970 {
            lemma_days_before_year_gap(date.year + 1, 0x1_0000_0000_0000_0000);
        } else {
            lemma_days_before_year_gap(1970, 0x1_0000_0000_0000_0000);
        }
    }

    /// The empty span is the identity of date arithmetic: a valid value from
    /// 1970 on that lies at or after the epoch, moved by a span of no
    /// seconds, is the value itself.
    pub proof fn lemma_empty_span_is_identity(
        date: DateTime,
        delta: TimeDelta,
        result: Result<DateTime, String>,
    )
        requires
            date.is_valid(),
            date.year >= 1970,
            date.unix_seconds() >= 0,
            delta.total_seconds() == 0,
            DateTime::moved(date.unix_seconds() + delta.total_seconds(), date.timezone, result),
        ensures
            result == Ok::<DateTime, String>(date),
    {
        assert(date.local_seconds() >= 0) by {
            lemma_seconds_under_limit(
                date.year as int,
                date.month as int,
                date.day as int,
                date.hour as int,
                date.minute as int,
                date.second as int,
            );
        }
        DateTime::lemma_reading_unique(
            result->Ok_0,
            date,
            date.unix_seconds(),
            date.timezone,
        );
    }

    /// Subtracting undoes adding: where a valid value from 1970 on, at or
    /// after the epoch, was moved forward by a span to `there`, moving
    /// `there` backward by the same span arrives at the value again.
    pub proof fn lemma_sub_undoes_add(
        date: DateTime,
        delta: TimeDelta,
        there: DateTime,
        back: Result<DateTime, String>,
    )
        requires
            date.is_valid(),
            date.year >= 1970,
            date.unix_seconds() >= 0,
            DateTime::moved(
                date.unix_seconds() + delta.total_seconds(),
                date.timezone,
                Ok::<DateTime, String>(there),
            ),
            DateTime::moved(there.unix_seconds() - delta.total_seconds(), there.timezone, back),
        ensures
            back == Ok::<DateTime, String>(date),
    {
        assert(date.local_seconds() >= 0) by {
            lemma_seconds_under_limit(
                date.year as int,
                date.month as int,
                date.day as int,
                date.hour as int,
                date.minute as int,
                date.second as int,
            );
        }
        DateTime::lemma_reading_unique(
            back->Ok_0,
            date,
            date.unix_seconds(),
            date.timezone,
        );
    }

    /// Reads the instant `unix_seconds` after the epoch in `timezone`.
    fn from_wide_seconds(unix_seconds: i128, timezone: TimeZone) -> (result: Result<Self, String>)
        requires
            -0x400_0000_0000_0000_0000_0000 <= unix_seconds,
            unix_seconds + timezone.offset() < seconds_limit(),
        ensures
            unix_seconds + timezone.offset() < 0 ==> fails_with(result, TimeError::BeforeEpoch),
            unix_seconds + timezone.offset() >= 0 ==> (result matches Ok(date) && date.represents(
                unix_seconds as int,
                timezone,
            )),
            result matches Ok(date) ==> DateTime::at(unix_seconds as int, timezone) == Some(date),
    {
        proof {
            lemma_seconds_limit_is_wide();
        }
        let adjusted: i128 = unix_seconds + timezone.offset_in_seconds() as i128;
        if adjusted < 0 {
            return Err(TimeError::BeforeEpoch.message());
        }
        let date = date_from_seconds(adjusted, timezone);
        proof {
            assert(date.represents(unix_seconds as int, timezone));
            let chosen = choose|other: DateTime| other.represents(unix_seconds as int, timezone);
            DateTime::lemma_reading_unique(chosen, date, unix_seconds as int, timezone);
        }
        Ok(date)
    }

    /// Creates the value with the given fields in `timezone`.
    ///
    /// The fields are checked in the order month, day, hour, minute,
    /// second, and the first that is out of range is reported. Fields that
    /// pass are taken to seconds since the epoch and read back in
    /// `timezone`: from 1970 on that gives the fields as they were passed.
    /// An earlier year counts as 1970, so what comes back is the date as
    /// many seconds into 1970 as the given date is into its own year.
    pub fn new(
        year: u64,
        month: u64,
        day: u64,
        hour: u64,
        minute: u64,
        second: u64,
        timezone: TimeZone,
    ) -> (result: Result<Self, String>)
        ensures
            match validation_error(
                year as int,
                month as int,
                day as int,
                hour as int,
                minute as int,
                second as int,
            ) {
                Some(error) => fails_with(result, error),
                None => result matches Ok(date) && date.is_valid() && date.year >= 1970
                    && date.timezone == timezone && date.local_seconds() == civil_seconds(
                    year as int,
                    month as int,
                    day as int,
                    hour as int,
                    minute as int,
                    second as int,
                ) && (year >= 1970 ==> date == (DateTime {
                    year,
                    month,
                    day,
                    hour,
                    minute,
                    second,
                    timezone,
                })) && (year < 1970 ==> date.year <= 1971),
            },
            result is Ok <==> valid_fields(
                year as int,
                month as int,
                day as int,
                hour as int,
                minute as int,
                second as int,
            ),
    {
        if month < 1 || month > 12 {
            return Err(TimeError::InvalidMonth.message());
        }
        if day < 1 || day > days_in_month(month, year) {
            return Err(TimeError::InvalidDay.message());
        }
        if hour > 23 {
            return Err(TimeError::InvalidHour.message());
        }
        if minute > 59 {
            return Err(TimeError::InvalidMinute.message());
        }
        if second > 59 {
            return Err(TimeError::InvalidSecond.message());
        }
        let local = seconds_since_epoch(year, month, day, hour, minute, second);
        let unix_seconds: i128 = local - timezone.offset_in_seconds() as i128;
        proof {
            lemma_seconds_under_limit(
                year as int,
                month as int,
                day as int,
                hour as int,
                minute as int,
                second as int,
            );
        }
        let result = Self::from_wide_seconds(unix_seconds, timezone);
        proof {
            if year < 1970 {
                let date = result->Ok_0;
                lemma_days_before_year_bounds(year as int);
                lemma_days_before_month_values(year as int);
                if date.year >= 1972 {
                    lemma_days_before_year_gap(1972, date.year as int);
                    assert(days_before_year(1972) == 730) by {
                        reveal_with_fuel(days_before_year, 3);
                    }
                }
                lemma_valid_fields_within_year(
                    date.year as int,
                    date.month as int,
                    date.day as int,
                    date.hour as int,
                    date.minute as int,
                    date.second as int,
                );
            }
            if year >= 1970 {
                let given = DateTime { year, month, day, hour, minute, second, timezone };
                DateTime::lemma_reading_unique(
                    result->Ok_0,
                    given,
                    unix_seconds as int,
                    timezone,
                );
            }
        }
        result
    }

    /// Counts the seconds from 1970-01-01 00:00:00 to the given fields, with
    /// no zone involved. A year before 1970 is refused. The count has to fit
    /// the result type.
    pub fn calculate_total_seconds(
        year: u64,
        month: u64,
        day: u64,
        hour: u64,
        minute: u64,
        second: u64,
    ) -> (result: Result<i64, String>)
        requires
            year >= 1970 ==> i64::MIN <= civil_seconds(
                year as int,
                month as int,
                day as int,
                hour as int,
                minute as int,
                second as int,
            ) <= i64::MAX,
        ensures
            year < 1970 ==> fails_with(result, TimeError::YearBeforeEpoch),
            year >= 1970 ==> (result matches Ok(total) && total == civil_seconds(
                year as int,
                month as int,
                day as int,
                hour as int,
                minute as int,
                second as int,
            )),
    {
        if year < 1970 {
            return Err(TimeError::YearBeforeEpoch.message());
        }
        let total = seconds_since_epoch(year, month, day, hour, minute, second);
        Ok(total as i64)
    }

    /// Returns the seconds from the Unix epoch to this value: the seconds
    /// from 1970-01-01 00:00:00 to its fields, less the offset of its zone.
    /// The count has to fit the result type.
    pub fn to_unix_seconds(&self) -> (seconds: i64)
        requires
            i64::MIN <= self.unix_seconds() <= i64::MAX,
        ensures
            seconds == self.unix_seconds(),
    {
        let local = seconds_since_epoch(
            self.year,
            self.month,
            self.day,
            self.hour,
            self.minute,
            self.second,
        );
        let total: i128 = local - self.timezone.offset_in_seconds() as i128;
        total as i64
    }

    /// Reads the instant `unix_seconds` after the Unix epoch in `timezone`.
    /// It fails where the reading would lie before 1970-01-01 in that zone.
    pub fn from_unix_seconds(unix_seconds: i64, timezone: TimeZone) -> (result: Result<
        Self,
        String,
    >)
        ensures
            unix_seconds + timezone.offset() < 0 ==> fails_with(result, TimeError::BeforeEpoch),
            unix_seconds + timezone.offset() >= 0 ==> (result matches Ok(date) && date.represents(
                unix_seconds as int,
                timezone,
            )),
            result matches Ok(date) ==> DateTime::at(unix_seconds as int, timezone) == Some(date),
    {
        proof {
            lemma_seconds_limit_is_wide();
        }
        Self::from_wide_seconds(unix_seconds as i128, timezone)
    }

    /// Moves the value forward by `delta` (backward where `delta` is
    /// negative) and reads the result in the same zone. It fails where the
    /// result would lie before the epoch. The result has to lie in a year
    /// that a `u64` can name.
    pub fn add_timedelta(&self, delta: TimeDelta) -> (result: Result<Self, String>)
        requires
            self.unix_seconds() + delta.total_seconds() + self.timezone.offset()
                < seconds_limit(),
        ensures
            DateTime::moved(self.unix_seconds() + delta.total_seconds(), self.timezone, result),
    {
        let current: i128 = seconds_since_epoch(
            self.year,
            self.month,
            self.day,
            self.hour,
            self.minute,
            self.second,
        ) - self.timezone.offset_in_seconds() as i128;
        let delta_seconds = total_seconds_wide(
            delta.weeks,
            delta.days,
            delta.hours,
            delta.minutes,
            delta.seconds,
        );
        let new_unix: i128 = current + delta_seconds;
        if new_unix < 0 {
            return Err(TimeError::ResultBeforeEpoch.message());
        }
        Self::from_wide_seconds(new_unix, self.timezone)
    }

    /// Moves the value backward by `delta` (forward where `delta` is
    /// negative) and reads the result in the same zone. It fails where the
    /// result would lie before the epoch. The result has to lie in a year
    /// that a `u64` can name.
    pub fn sub_timedelta(&self, delta: TimeDelta) -> (result: Result<Self, String>)
        requires
            self.unix_seconds() - delta.total_seconds() + self.timezone.offset()
                < seconds_limit(),
        ensures
            DateTime::moved(self.unix_seconds() - delta.total_seconds(), self.timezone, result),
    {
        let current: i128 = seconds_since_epoch(
            self.year,
            self.month,
            self.day,
            self.hour,
            self.minute,
            self.second,
        ) - self.timezone.offset_in_seconds() as i128;
        let delta_seconds = total_seconds_wide(
            delta.weeks,
            delta.days,
            delta.hours,
            delta.minutes,
            delta.seconds,
        );
        let new_unix: i128 = current - delta_seconds;
        if new_unix < 0 {
            return Err(TimeError::ResultBeforeEpoch.message());
        }
        Self::from_wide_seconds(new_unix, self.timezone)
    }
}

impl PartialEq for DateTime {
    /// Two values are equal when date and time of day agree; the zones are
    /// not compared.
    fn eq(&self, other: &Self) -> (equal: bool) {
        self.year == other.year && self.month == other.month && self.day == other.day && self.hour
            == other.hour && self.minute == other.minute && self.second == other.second
    }
}

impl PartialEqSpecImpl for DateTime {
    open spec fn obeys_eq_spec() -> bool {
        true
    }

    open spec fn eq_spec(&self, other: &Self) -> bool {
        self.same_fields(other)
    }
}

} // verus!
