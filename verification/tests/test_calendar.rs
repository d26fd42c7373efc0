use timekit::constants::{
    OFFSET_ACST, OFFSET_CST_ASIA, OFFSET_HST, SECONDS_IN_DAY, SECONDS_IN_HOUR,
    SECONDS_IN_LEAPYEAR, SECONDS_IN_MINUTE, SECONDS_IN_MONTH, SECONDS_IN_WEEK, SECONDS_IN_YEAR,
};
use timekit::{compute_total_seconds, days_in_month, is_leap_year, TimeDelta, TimeError, TimeZone};

fn all_zones() -> Vec<(TimeZone, i64)> {
    vec![
        (TimeZone::UTC, 0),
        (TimeZone::KST, 32400),
        (TimeZone::JST, 32400),
        (TimeZone::EST, -18000),
        (TimeZone::PST, -28800),
        (TimeZone::IST, 19800),
        (TimeZone::CET, 3600),
        (TimeZone::AST, -14400),
        (TimeZone::CST, -21600),
        (TimeZone::MST, -25200),
        (TimeZone::AKST, -32400),
        (TimeZone::HST, -36000),
        (TimeZone::BST, 3600),
        (TimeZone::WET, 0),
        (TimeZone::EET, 7200),
        (TimeZone::SAST, 7200),
        (TimeZone::EAT, 10800),
        (TimeZone::AEST, 36000),
        (TimeZone::ACST, 34200),
        (TimeZone::AWST, 28800),
        (TimeZone::CSTAsia, 28800),
        (TimeZone::SGT, 28800),
        (TimeZone::HKT, 28800),
    ]
}

#[test]
fn leap_year_follows_the_gregorian_rule() {
    assert!(!is_leap_year(1900));
    assert!(is_leap_year(2000));
    assert!(is_leap_year(2020));
    assert!(!is_leap_year(2023));
    assert!(is_leap_year(2024));
    assert!(is_leap_year(2400));
    assert!(is_leap_year(0));
    for year in 0u64..3000 {
        let expected = year % 4 == 0 && (year % 100 != 0 || year % 400 == 0);
        assert_eq!(is_leap_year(year), expected, "year {}", year);
    }
}

#[test]
fn month_lengths_follow_the_table() {
    assert_eq!(days_in_month(2, 2024), 29);
    assert_eq!(days_in_month(2, 2023), 28);
    assert_eq!(days_in_month(4, 2023), 30);
    assert_eq!(days_in_month(1, 2023), 31);
    assert_eq!(days_in_month(13, 2023), 0);
    assert_eq!(days_in_month(13, 2024), 0);
    assert_eq!(days_in_month(0, 2024), 0);
    assert_eq!(days_in_month(u64::MAX, 2024), 0);
    assert_eq!(days_in_month(2, 1900), 28);
    assert_eq!(days_in_month(2, 2000), 29);
}

#[test]
fn months_of_a_year_add_up_to_its_length() {
    for year in [1970u64, 1972, 1900, 2000, 2023, 2024] {
        let mut total = 0;
        for month in 1..=12 {
            total += days_in_month(month, year);
        }
        assert_eq!(total, if is_leap_year(year) { 366 } else { 365 });
    }
}

#[test]
fn every_zone_has_its_offset() {
    let zones = all_zones();
    assert_eq!(zones.len(), 23);
    for (zone, offset) in zones {
        assert_eq!(zone.offset_in_seconds(), offset, "{:?}", zone);
    }
    assert_eq!(TimeZone::ACST.offset_in_seconds(), OFFSET_ACST);
    assert_eq!(TimeZone::CSTAsia.offset_in_seconds(), OFFSET_CST_ASIA);
    assert_eq!(TimeZone::HST.offset_in_seconds(), OFFSET_HST);
}

#[test]
fn unit_lengths_are_consistent() {
    assert_eq!(SECONDS_IN_MINUTE, 60);
    assert_eq!(SECONDS_IN_HOUR, 60 * SECONDS_IN_MINUTE);
    assert_eq!(SECONDS_IN_DAY, 24 * SECONDS_IN_HOUR);
    assert_eq!(SECONDS_IN_WEEK, 7 * SECONDS_IN_DAY);
    assert_eq!(SECONDS_IN_MONTH, 30 * SECONDS_IN_DAY);
    assert_eq!(SECONDS_IN_YEAR, 365 * SECONDS_IN_DAY);
    assert_eq!(SECONDS_IN_LEAPYEAR, 366 * SECONDS_IN_DAY);
}

#[test]
fn total_seconds_is_the_weighted_sum() {
    assert_eq!(compute_total_seconds(0, 0, 0, 0, 0), 0);
    assert_eq!(compute_total_seconds(1, 0, 0, 0, 0), 604800);
    assert_eq!(compute_total_seconds(0, 1, 0, 0, 0), 86400);
    assert_eq!(compute_total_seconds(0, 0, 1, 0, 0), 3600);
    assert_eq!(compute_total_seconds(0, 0, 0, 1, 0), 60);
    assert_eq!(compute_total_seconds(0, 0, 0, 0, 1), 1);
    assert_eq!(compute_total_seconds(1, 2, 3, 4, 5), 788645);
    assert_eq!(compute_total_seconds(1, -7, 0, 0, 0), 0);
    assert_eq!(compute_total_seconds(-1, 0, 0, 0, -1), -604801);
    // The parts may overflow one by one as long as the sum fits.
    assert_eq!(compute_total_seconds(1 << 60, -7 * (1 << 60), 0, 0, 61), 61);
    assert_eq!(compute_total_seconds(0, 0, 0, 0, i64::MIN), i64::MIN);
}

#[test]
fn duration_renders_its_nonzero_parts() {
    let delta = TimeDelta { weeks: 1, days: 2, hours: 3, minutes: 4, seconds: 5 };
    assert_eq!(delta.to_string(), "1 week, 2 days, 3 hours, 4 minutes, 5 seconds");
    assert_eq!(TimeDelta::default().to_string(), "0 seconds");
    let delta = TimeDelta { weeks: 0, days: 1, hours: 0, minutes: 1, seconds: 0 };
    assert_eq!(delta.to_string(), "1 day, 1 minute");
    let delta = TimeDelta { weeks: 2, days: 0, hours: 1, minutes: 0, seconds: 1 };
    assert_eq!(delta.to_string(), "2 weeks, 1 hour, 1 second");
    let delta = TimeDelta { weeks: 0, days: 0, hours: 0, minutes: 0, seconds: 70 };
    assert_eq!(delta.to_string(), "70 seconds");
}

#[test]
fn duration_renders_negative_parts() {
    let delta = TimeDelta { weeks: -1, days: -2, hours: 0, minutes: 10, seconds: -1 };
    assert_eq!(delta.to_string(), "-1 week, -2 days, 10 minutes, -1 second");
    let delta = TimeDelta { weeks: 0, days: 0, hours: -100, minutes: 0, seconds: 0 };
    assert_eq!(delta.to_string(), "-100 hours");
    let delta = TimeDelta { weeks: i64::MAX, days: 0, hours: 0, minutes: 0, seconds: i64::MIN };
    assert_eq!(
        delta.to_string(),
        "9223372036854775807 weeks, -9223372036854775808 seconds"
    );
}

#[test]
fn duration_default_is_the_empty_span() {
    let delta = TimeDelta::default();
    assert_eq!(delta, TimeDelta { weeks: 0, days: 0, hours: 0, minutes: 0, seconds: 0 });
    assert_ne!(delta, TimeDelta { weeks: 0, days: 0, hours: 0, minutes: 0, seconds: 1 });
}

#[test]
fn every_error_has_its_own_message() {
    let errors = vec![
        (TimeError::InvalidMonth, "Invalid month"),
        (TimeError::InvalidDay, "Invalid day"),
        (TimeError::InvalidHour, "Invalid hour"),
        (TimeError::InvalidMinute, "Invalid minute"),
        (TimeError::InvalidSecond, "Invalid second"),
        (TimeError::YearBeforeEpoch, "Year must be 1970 or later"),
        (TimeError::BeforeEpoch, "Unix seconds cannot represent a date before 1970-01-01"),
        (
            TimeError::ResultBeforeEpoch,
            "Resulting DateTime is before Unix epoch (1970-01-01 00:00:00 UTC)",
        ),
        (TimeError::ClockBeforeEpoch, "Time went backwards"),
    ];
    for (i, (error, message)) in errors.iter().enumerate() {
        assert_eq!(error.message(), *message);
        for (j, (other, _)) in errors.iter().enumerate() {
            assert_eq!(i == j, error == other);
            assert_eq!(i == j, error.message() == other.message());
        }
    }
}
