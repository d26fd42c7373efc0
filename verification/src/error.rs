//! The ways in which building or moving an instant can fail, and the message
//! that reports each.

use vstd::prelude::*;
use vstd::string::StringExecFns;

verus! {

/// Why an operation of this library failed.
#[derive(Debug, Clone, Copy, PartialEq, Eq, Structural)]
pub enum TimeError {
    /// The month is not in 1..=12.
    InvalidMonth,
    /// The day is not in 1..=(length of the month).
    InvalidDay,
    /// The hour is above 23.
    InvalidHour,
    /// The minute is above 59.
    InvalidMinute,
    /// The second is above 59.
    InvalidSecond,
    /// A year before 1970 was given where seconds since the epoch are counted.
    YearBeforeEpoch,
    /// The seconds name a local date before 1970-01-01.
    BeforeEpoch,
    /// Date arithmetic arrived at an instant before the epoch.
    ResultBeforeEpoch,
    /// The system clock stands before the epoch.
    ClockBeforeEpoch,
}

impl TimeError {
    /// The message that reports this failure.
    pub open spec fn text(self) -> Seq<char> {
        match self {
            TimeError::InvalidMonth => "Invalid month"@,
            TimeError::InvalidDay => "Invalid day"@,
            TimeError::InvalidHour => "Invalid hour"@,
            TimeError::InvalidMinute => "Invalid minute"@,
            TimeError::InvalidSecond => "Invalid second"@,
            TimeError::YearBeforeEpoch => "Year must be 1970 or later"@,
            TimeError::BeforeEpoch => "Unix seconds cannot represent a date before 1970-01-01"@,
            TimeError::ResultBeforeEpoch
                => "Resulting DateTime is before Unix epoch (1970-01-01 00:00:00 UTC)"@,
            TimeError::ClockBeforeEpoch => "Time went backwards"@,
        }
    }

    /// Returns the message that reports this failure.
    pub fn message(&self) -> (message: String)
        ensures
            message@ == self.text(),
    {
        match self {
            TimeError::InvalidMonth => String::from_str("Invalid month"),
            TimeError::InvalidDay => String::from_str("Invalid day"),
            TimeError::InvalidHour => String::from_str("Invalid hour"),
            TimeError::InvalidMinute => String::from_str("Invalid minute"),
            TimeError::InvalidSecond => String::from_str("Invalid second"),
            TimeError::YearBeforeEpoch => String::from_str("Year must be 1970 or later"),
            TimeError::BeforeEpoch => String::from_str(
                "Unix seconds cannot represent a date before 1970-01-01",
            ),
            TimeError::ResultBeforeEpoch => String::from_str(
                "Resulting DateTime is before Unix epoch (1970-01-01 00:00:00 UTC)",
            ),
            TimeError::ClockBeforeEpoch => String::from_str("Time went backwards"),
        }
    }

    /// No two failures share a message: the message tells which failure it
    /// was.
    pub proof fn lemma_text_tells_error(a: TimeError, b: TimeError)
        requires
            a.text() == b.text(),
        ensures
            a == b,
    {
        reveal_strlit("Invalid month");
        reveal_strlit("Invalid day");
        reveal_strlit("Invalid hour");
        reveal_strlit("Invalid minute");
        reveal_strlit("Invalid second");
        reveal_strlit("Year must be 1970 or later");
        reveal_strlit("Unix seconds cannot represent a date before 1970-01-01");
        reveal_strlit("Resulting DateTime is before Unix epoch (1970-01-01 00:00:00 UTC)");
        reveal_strlit("Time went backwards");
        assert("Invalid minute"@[8] == 'm');
        assert("Invalid second"@[8] == 's');
        assert("Invalid month"@.len() == 13);
        assert("Invalid day"@.len() == 11);
        assert("Invalid hour"@.len() == 12);
        assert("Invalid minute"@.len() == 14);
        assert("Invalid second"@.len() == 14);
        assert("Year must be 1970 or later"@.len() == 26);
        assert("Unix seconds cannot represent a date before 1970-01-01"@.len() == 54);
        assert("Resulting DateTime is before Unix epoch (1970-01-01 00:00:00 UTC)"@.len() == 65);
        assert("Time went backwards"@.len() == 19);
        assert(a.text().len() == b.text().len());
    }
}

/// Whether `result` is the failure `error`: an `Err` that holds the message
/// of `error`.
pub open spec fn fails_with<T>(result: Result<T, String>, error: TimeError) -> bool {
    result matches Err(message) && message@ == error.text()
}

} // verus!
