use timekit::{
    adjust_second_with_timezone, calculate_date_since_epoch, date_from_clock_seconds, DateTime,
    TimeDelta, TimeZone,
};

fn zones() -> Vec<TimeZone> {
    vec![
        TimeZone::UTC,
        TimeZone::KST,
        TimeZone::EST,
        TimeZone::PST,
        TimeZone::JST,
        TimeZone::IST,
        TimeZone::CET,
        TimeZone::AST,
        TimeZone::CST,
        TimeZone::MST,
        TimeZone::AKST,
        TimeZone::HST,
        TimeZone::BST,
        TimeZone::WET,
        TimeZone::EET,
        TimeZone::SAST,
        TimeZone::EAT,
        TimeZone::AEST,
        TimeZone::ACST,
        TimeZone::AWST,
        TimeZone::CSTAsia,
        TimeZone::SGT,
        TimeZone::HKT,
    ]
}

fn fields(date: &DateTime) -> (u64, u64, u64, u64, u64, u64) {
    (date.year, date.month, date.day, date.hour, date.minute, date.second)
}

fn days(n: i64) -> TimeDelta {
    TimeDelta { weeks: 0, days: n, hours: 0, minutes: 0, seconds: 0 }
}

#[test]
fn construction_keeps_valid_fields() {
    let date = DateTime::new(2024, 2, 29, 23, 59, 59, TimeZone::IST).unwrap();
    assert_eq!(fields(&date), (2024, 2, 29, 23, 59, 59));
    assert!(matches!(date.timezone, TimeZone::IST));
    let date = DateTime::new(1970, 1, 1, 0, 0, 0, TimeZone::KST).unwrap();
    assert_eq!(fields(&date), (1970, 1, 1, 0, 0, 0));
    let date = DateTime::new(1970, 1, 1, 0, 0, 0, TimeZone::HST).unwrap();
    assert_eq!(fields(&date), (1970, 1, 1, 0, 0, 0));
}

#[test]
fn construction_reports_the_first_bad_field() {
    let utc = TimeZone::UTC;
    assert_eq!(DateTime::new(2023, 0, 1, 0, 0, 0, utc).unwrap_err(), "Invalid month");
    assert_eq!(DateTime::new(2023, 13, 1, 0, 0, 0, utc).unwrap_err(), "Invalid month");
    assert_eq!(DateTime::new(2023, 2, 29, 0, 0, 0, utc).unwrap_err(), "Invalid day");
    assert_eq!(DateTime::new(2023, 2, 0, 0, 0, 0, utc).unwrap_err(), "Invalid day");
    assert_eq!(DateTime::new(2023, 4, 31, 0, 0, 0, utc).unwrap_err(), "Invalid day");
    assert_eq!(DateTime::new(2023, 1, 1, 24, 0, 0, utc).unwrap_err(), "Invalid hour");
    assert_eq!(DateTime::new(2023, 1, 1, 0, 60, 0, utc).unwrap_err(), "Invalid minute");
    assert_eq!(DateTime::new(2023, 1, 1, 0, 0, 60, utc).unwrap_err(), "Invalid second");
    // The month is looked at before the day, the day before the hour, and so on.
    assert_eq!(DateTime::new(2023, 13, 32, 24, 60, 60, utc).unwrap_err(), "Invalid month");
    assert_eq!(DateTime::new(2023, 12, 32, 24, 60, 60, utc).unwrap_err(), "Invalid day");
    assert_eq!(DateTime::new(2023, 12, 31, 24, 60, 60, utc).unwrap_err(), "Invalid hour");
    assert_eq!(DateTime::new(2023, 12, 31, 23, 60, 60, utc).unwrap_err(), "Invalid minute");
}

#[test]
fn construction_before_1970_counts_from_1970() {
    let date = DateTime::new(1968, 2, 29, 1, 2, 3, TimeZone::UTC).unwrap();
    assert_eq!(fields(&date), (1970, 3, 1, 1, 2, 3));
    let date = DateTime::new(0, 1, 1, 0, 0, 0, TimeZone::KST).unwrap();
    assert_eq!(fields(&date), (1970, 1, 1, 0, 0, 0));
    // The last day of a leap year is the 366th, and 1970 has 365.
    let date = DateTime::new(1968, 12, 31, 23, 59, 59, TimeZone::UTC).unwrap();
    assert_eq!(fields(&date), (1971, 1, 1, 23, 59, 59));
}

#[test]
fn unix_seconds_of_known_dates() {
    let utc = TimeZone::UTC;
    assert_eq!(DateTime::new(1970, 1, 1, 0, 0, 0, utc).unwrap().to_unix_seconds(), 0);
    assert_eq!(DateTime::new(1970, 1, 1, 0, 0, 1, utc).unwrap().to_unix_seconds(), 1);
    assert_eq!(DateTime::new(1970, 1, 2, 0, 0, 0, utc).unwrap().to_unix_seconds(), 86400);
    assert_eq!(DateTime::new(1971, 1, 1, 0, 0, 0, utc).unwrap().to_unix_seconds(), 31536000);
    assert_eq!(DateTime::new(2000, 1, 1, 0, 0, 0, utc).unwrap().to_unix_seconds(), 946684800);
    assert_eq!(DateTime::new(2000, 3, 1, 0, 0, 0, utc).unwrap().to_unix_seconds(), 951868800);
    assert_eq!(DateTime::new(2023, 8, 1, 12, 0, 0, utc).unwrap().to_unix_seconds(), 1690891200);
    assert_eq!(
        DateTime::new(2023, 8, 1, 21, 0, 0, TimeZone::KST).unwrap().to_unix_seconds(),
        1690891200
    );
    assert_eq!(
        DateTime::new(1970, 1, 1, 0, 0, 0, TimeZone::KST).unwrap().to_unix_seconds(),
        -32400
    );
    assert_eq!(
        DateTime::new(1970, 1, 1, 0, 0, 0, TimeZone::EST).unwrap().to_unix_seconds(),
        18000
    );
}

#[test]
fn unix_seconds_of_raw_fields() {
    let date = DateTime {
        year: 1960,
        month: 14,
        day: 1,
        hour: 0,
        minute: 0,
        second: 0,
        timezone: TimeZone::UTC,
    };
    // Years before 1970 add nothing, and months after December have no days.
    assert_eq!(date.to_unix_seconds(), 366 * 86400);
}

#[test]
fn total_seconds_without_a_zone() {
    assert_eq!(DateTime::calculate_total_seconds(1970, 1, 1, 0, 0, 0), Ok(0));
    assert_eq!(DateTime::calculate_total_seconds(2023, 8, 1, 12, 0, 0), Ok(1690891200));
    assert_eq!(DateTime::calculate_total_seconds(2024, 3, 1, 1, 1, 1), Ok(1709254861));
    assert_eq!(
        DateTime::calculate_total_seconds(1969, 12, 31, 23, 59, 59).unwrap_err(),
        "Year must be 1970 or later"
    );
}

#[test]
fn reading_seconds_in_a_zone() {
    let date = DateTime::from_unix_seconds(1690891200, TimeZone::UTC).unwrap();
    assert_eq!(fields(&date), (2023, 8, 1, 12, 0, 0));
    let date = DateTime::from_unix_seconds(1690891200, TimeZone::KST).unwrap();
    assert_eq!(fields(&date), (2023, 8, 1, 21, 0, 0));
    assert!(matches!(date.timezone, TimeZone::KST));
    let date = DateTime::from_unix_seconds(1690891200, TimeZone::IST).unwrap();
    assert_eq!(fields(&date), (2023, 8, 1, 17, 30, 0));
    let date = DateTime::from_unix_seconds(1709251199, TimeZone::UTC).unwrap();
    assert_eq!(fields(&date), (2024, 2, 29, 23, 59, 59));
    let date = DateTime::from_unix_seconds(1709251200, TimeZone::UTC).unwrap();
    assert_eq!(fields(&date), (2024, 3, 1, 0, 0, 0));
    let date = DateTime::from_unix_seconds(0, TimeZone::UTC).unwrap();
    assert_eq!(fields(&date), (1970, 1, 1, 0, 0, 0));
    let date = DateTime::from_unix_seconds(-1, TimeZone::KST).unwrap();
    assert_eq!(fields(&date), (1970, 1, 1, 8, 59, 59));
}

#[test]
fn reading_seconds_before_1970_fails() {
    let message = "Unix seconds cannot represent a date before 1970-01-01";
    assert_eq!(DateTime::from_unix_seconds(-1, TimeZone::UTC).unwrap_err(), message);
    assert_eq!(DateTime::from_unix_seconds(17999, TimeZone::EST).unwrap_err(), message);
    assert!(DateTime::from_unix_seconds(18000, TimeZone::EST).is_ok());
    assert_eq!(DateTime::from_unix_seconds(-32401, TimeZone::KST).unwrap_err(), message);
    assert!(DateTime::from_unix_seconds(-32400, TimeZone::KST).is_ok());
    assert_eq!(DateTime::from_unix_seconds(i64::MIN, TimeZone::HST).unwrap_err(), message);
}

#[test]
fn round_trip_gives_the_fields_back() {
    for zone in zones() {
        for (year, month, day, hour, minute, second) in [
            (1970u64, 1u64, 1u64, 0u64, 0u64, 0u64),
            (1970, 12, 31, 23, 59, 59),
            (1972, 2, 29, 12, 30, 30),
            (1999, 12, 31, 23, 59, 59),
            (2000, 2, 29, 0, 0, 0),
            (2023, 8, 3, 5, 20, 59),
            (2024, 2, 29, 23, 59, 59),
            (2100, 3, 1, 0, 0, 1),
            (2400, 2, 29, 6, 7, 8),
        ] {
            let date = DateTime::new(year, month, day, hour, minute, second, zone).unwrap();
            assert_eq!(fields(&date), (year, month, day, hour, minute, second));
            let back = DateTime::from_unix_seconds(date.to_unix_seconds(), zone).unwrap();
            assert_eq!(fields(&back), (year, month, day, hour, minute, second));
            assert_eq!(back, date);
        }
    }
}

#[test]
fn seconds_survive_the_round_trip_in_every_zone() {
    for zone in zones() {
        for seconds in [50400i64, 86399, 86400, 951782400, 1690891200, 4102444800] {
            let date = DateTime::from_unix_seconds(seconds, zone).unwrap();
            assert_eq!(date.to_unix_seconds(), seconds, "{:?}", zone);
        }
    }
}

#[test]
fn one_instant_in_two_zones() {
    let utc = DateTime::new(2023, 8, 1, 12, 0, 0, TimeZone::UTC).unwrap();
    let kst = DateTime::new(2023, 8, 1, 21, 0, 0, TimeZone::KST).unwrap();
    assert_eq!(utc.to_unix_seconds(), 1690891200);
    assert_eq!(kst.to_unix_seconds(), 1690891200);
    // Equality looks at the fields, not at the instant.
    assert_ne!(utc, kst);
    let same_fields = DateTime::new(2023, 8, 1, 12, 0, 0, TimeZone::KST).unwrap();
    assert_eq!(utc, same_fields);
    assert_ne!(utc.to_unix_seconds(), same_fields.to_unix_seconds());
}

#[test]
fn adding_crosses_the_end_of_the_year() {
    let date = DateTime::new(2023, 12, 31, 23, 59, 59, TimeZone::UTC).unwrap();
    let delta = TimeDelta { weeks: 0, days: 1, hours: 0, minutes: 0, seconds: 1 };
    let moved = date.add_timedelta(delta).unwrap();
    assert_eq!(fields(&moved), (2024, 1, 2, 0, 0, 0));
    assert_eq!(moved, DateTime::new(2024, 1, 2, 0, 0, 0, TimeZone::UTC).unwrap());
}

#[test]
fn adding_nothing_changes_nothing() {
    for zone in zones() {
        let date = DateTime::new(2024, 2, 29, 23, 59, 59, zone).unwrap();
        assert_eq!(date.add_timedelta(TimeDelta::default()).unwrap(), date);
        assert_eq!(date.sub_timedelta(TimeDelta::default()).unwrap(), date);
    }
}

#[test]
fn adding_nothing_before_the_epoch_fails() {
    // Midnight in Seoul on the first day of 1970 is nine hours before the epoch.
    let date = DateTime::new(1970, 1, 1, 0, 0, 0, TimeZone::KST).unwrap();
    assert_eq!(date.to_unix_seconds(), -32400);
    assert_eq!(
        date.add_timedelta(TimeDelta::default()).unwrap_err(),
        "Resulting DateTime is before Unix epoch (1970-01-01 00:00:00 UTC)"
    );
    let nine_hours = TimeDelta { weeks: 0, days: 0, hours: 9, minutes: 0, seconds: 0 };
    assert_eq!(fields(&date.add_timedelta(nine_hours).unwrap()), (1970, 1, 1, 9, 0, 0));
}

#[test]
fn adding_far_beyond_the_range_of_unix_seconds() {
    let date = DateTime::new(2023, 1, 1, 0, 0, 0, TimeZone::UTC).unwrap();
    let delta = TimeDelta { weeks: 0, days: 146097 * 1000, hours: 0, minutes: 0, seconds: 0 };
    // 146097 days are 400 years.
    let moved = date.add_timedelta(delta).unwrap();
    assert_eq!(fields(&moved), (402023, 1, 1, 0, 0, 0));
    assert_eq!(moved.sub_timedelta(delta).unwrap(), date);
}

#[test]
fn adding_mixed_parts() {
    let date = DateTime::new(2023, 3, 15, 10, 0, 0, TimeZone::CET).unwrap();
    let delta = TimeDelta { weeks: 1, days: -7, hours: 25, minutes: -60, seconds: 61 };
    let moved = date.add_timedelta(delta).unwrap();
    assert_eq!(fields(&moved), (2023, 3, 16, 10, 1, 1));
    assert!(matches!(moved.timezone, TimeZone::CET));
    let back = moved.sub_timedelta(delta).unwrap();
    assert_eq!(back, date);
}

#[test]
fn subtracting_past_the_epoch_fails() {
    let message = "Resulting DateTime is before Unix epoch (1970-01-01 00:00:00 UTC)";
    let date = DateTime::new(1970, 1, 1, 0, 0, 0, TimeZone::UTC).unwrap();
    assert_eq!(date.sub_timedelta(days(1)).unwrap_err(), message);
    assert_eq!(date.add_timedelta(days(-1)).unwrap_err(), message);
    let second = TimeDelta { weeks: 0, days: 0, hours: 0, minutes: 0, seconds: 1 };
    assert_eq!(date.sub_timedelta(second).unwrap_err(), message);
    assert!(date.add_timedelta(second).is_ok());
    let far = TimeDelta { weeks: i64::MIN, days: 0, hours: 0, minutes: 0, seconds: 0 };
    assert_eq!(date.add_timedelta(far).unwrap_err(), message);
}

#[test]
fn arriving_before_1970_in_a_western_zone_fails() {
    // 01:00 in New York on the first day of 1970 is after the epoch, an
    // hour and a half earlier is too, but it is no longer 1970 there.
    let date = DateTime::new(1970, 1, 1, 1, 0, 0, TimeZone::EST).unwrap();
    let delta = TimeDelta { weeks: 0, days: 0, hours: 1, minutes: 30, seconds: 0 };
    assert_eq!(
        date.sub_timedelta(delta).unwrap_err(),
        "Unix seconds cannot represent a date before 1970-01-01"
    );
}

#[test]
fn operators_are_the_methods() {
    let date = DateTime::new(2023, 1, 31, 0, 0, 0, TimeZone::PST).unwrap();
    assert_eq!((date + days(1)).unwrap(), date.add_timedelta(days(1)).unwrap());
    assert_eq!((date - days(31)).unwrap(), date.sub_timedelta(days(31)).unwrap());
    assert_eq!(fields(&(date + days(1)).unwrap()), (2023, 2, 1, 0, 0, 0));
    assert_eq!(fields(&(date - days(31)).unwrap()), (2022, 12, 31, 0, 0, 0));
    let first = DateTime::new(1970, 1, 1, 0, 0, 0, TimeZone::UTC).unwrap();
    assert!((first - days(1)).is_err());
}

#[test]
fn pattern_directives_are_replaced() {
    let date = DateTime::new(2023, 8, 3, 5, 20, 59, TimeZone::UTC).unwrap();
    assert_eq!(date.strftime("%Y-%m-%d %H:%M:%S"), "2023-08-03 05:20:59");
    assert_eq!(date.strftime("%Y%m%d"), "20230803");
    assert_eq!(date.strftime("%d/%m/%Y %d"), "03/08/2023 03");
    assert_eq!(date.strftime(""), "");
    assert_eq!(date.strftime("no directives"), "no directives");
}

#[test]
fn pattern_text_is_copied() {
    let date = DateTime::new(2023, 8, 3, 5, 20, 59, TimeZone::UTC).unwrap();
    assert_eq!(date.strftime("%"), "%");
    assert_eq!(date.strftime("100%"), "100%");
    assert_eq!(date.strftime("%%Y"), "%2023");
    assert_eq!(date.strftime("%y %D %h %s %x"), "%y %D %h %s %x");
    assert_eq!(date.strftime("% Y"), "% Y");
    assert_eq!(date.strftime("%H시 %M분"), "05시 20분");
    assert_eq!(date.strftime("%%%%m%"), "%%%08%");
}

#[test]
fn pattern_fields_are_not_cut() {
    let date = DateTime {
        year: 12345,
        month: 123,
        day: 0,
        hour: 7,
        minute: u64::MAX,
        second: 10,
        timezone: TimeZone::UTC,
    };
    assert_eq!(date.strftime("%Y|%m|%d|%H|%M|%S"), "12345|123|00|07|18446744073709551615|10");
    let early = DateTime { year: 7, ..date };
    assert_eq!(early.strftime("%Y"), "0007");
}

#[test]
fn default_rendering() {
    let date = DateTime::new(2023, 8, 3, 5, 20, 59, TimeZone::UTC).unwrap();
    assert_eq!(date.to_string(), "2023-08-03 05:20:59");
    let date = DateTime::new(1970, 1, 1, 0, 0, 0, TimeZone::KST).unwrap();
    assert_eq!(date.to_string(), "1970-01-01 00:00:00");
    assert_eq!(date.to_string(), date.strftime("%Y-%m-%d %H:%M:%S"));
}

#[test]
fn clock_reading_is_shifted_by_the_offset() {
    assert_eq!(adjust_second_with_timezone(1000, TimeZone::KST), 33400);
    assert_eq!(adjust_second_with_timezone(1000, TimeZone::UTC), 1000);
    assert_eq!(adjust_second_with_timezone(18000, TimeZone::EST), 0);
    // The sum wraps at 2^64.
    assert_eq!(adjust_second_with_timezone(0, TimeZone::EST), u64::MAX - 17999);
    assert_eq!(adjust_second_with_timezone(u64::MAX, TimeZone::CET), 3599);
}

#[test]
fn date_from_local_seconds() {
    let date = calculate_date_since_epoch(0, TimeZone::KST).unwrap();
    assert_eq!(fields(&date), (1970, 1, 1, 0, 0, 0));
    assert!(matches!(date.timezone, TimeZone::KST));
    let date = calculate_date_since_epoch(1690891200, TimeZone::EST).unwrap();
    assert_eq!(fields(&date), (2023, 8, 1, 12, 0, 0));
    let date = calculate_date_since_epoch(68255999, TimeZone::UTC).unwrap();
    assert_eq!(fields(&date), (1972, 2, 29, 23, 59, 59));
    assert_eq!(
        calculate_date_since_epoch(-1, TimeZone::UTC).unwrap_err(),
        "Unix seconds cannot represent a date before 1970-01-01"
    );
    assert!(calculate_date_since_epoch(-86400, TimeZone::KST).is_err());
}

#[test]
fn date_from_a_clock_reading() {
    let date = date_from_clock_seconds(1690891200, TimeZone::KST).unwrap();
    assert_eq!(fields(&date), (2023, 8, 1, 21, 0, 0));
    assert_eq!(date.to_unix_seconds(), 1690891200);
    let date = date_from_clock_seconds(0, TimeZone::UTC).unwrap();
    assert_eq!(fields(&date), (1970, 1, 1, 0, 0, 0));
    assert_eq!(
        date_from_clock_seconds(0, TimeZone::EST).unwrap_err(),
        "Unix seconds cannot represent a date before 1970-01-01"
    );
    for zone in zones() {
        let date = date_from_clock_seconds(1_000_000_000, zone).unwrap();
        assert_eq!(date, DateTime::from_unix_seconds(1_000_000_000, zone).unwrap());
    }
}
