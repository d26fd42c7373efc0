//! Civil-calendar arithmetic over fixed-offset time zones: conversion between
//! calendar fields and seconds since the Unix epoch, and date arithmetic with
//! signed durations.

pub mod calendar;
pub mod clock;
pub mod constants;
pub mod datetime;
pub mod epoch;
pub mod error;
pub mod format;
pub mod operators;
pub mod text;
pub mod timedelta;
pub mod timezone;

pub use calendar::{days_in_month, is_leap_year};
pub use clock::{
    adjust_second_with_timezone, calculate_date_since_epoch, date_from_clock_seconds, now,
};
pub use datetime::DateTime;
pub use error::TimeError;
pub use timedelta::{compute_total_seconds, TimeDelta};
pub use timezone::TimeZone;
