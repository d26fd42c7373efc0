//! The closed set of named zones, each a constant offset from UTC.

use crate::constants::{
    OFFSET_ACST, OFFSET_AEST, OFFSET_AKST, OFFSET_AST, OFFSET_AWST, OFFSET_BST, OFFSET_CET,
    OFFSET_CST, OFFSET_CST_ASIA, OFFSET_EAT, OFFSET_EET, OFFSET_EST, OFFSET_HKT, OFFSET_HST,
    OFFSET_IST, OFFSET_JST, OFFSET_KST, OFFSET_MST, OFFSET_PST, OFFSET_SAST, OFFSET_SGT,
    OFFSET_UTC, OFFSET_WET,
};
use vstd::prelude::*;

verus! {

/// A named time zone. Every zone is a fixed number of seconds away from UTC,
/// the year round.
#[derive(Debug, Clone, Copy)]
pub enum TimeZone {
    /// Coordinated Universal Time
    UTC,
    /// Korea Standard Time (UTC+9)
    KST,
    /// Eastern Standard Time (UTC-5)
    EST,
    /// Pacific Standard Time (UTC-8)
    PST,
    /// Japan Standard Time (UTC+9)
    JST,
    /// India Standard Time (UTC+5:30)
    IST,
    /// Central European Time (UTC+1)
    CET,
    /// Atlantic Standard Time (UTC-4)
    AST,
    /// Central Standard Time (UTC-6)
    CST,
    /// Mountain Standard Time (UTC-7)
    MST,
    /// Alaska Standard Time (UTC-9)
    AKST,
    /// Hawaii Standard Time (UTC-10)
    HST,
    /// British Summer Time (UTC+1)
    BST,
    /// Western European Time (UTC+0)
    WET,
    /// Eastern European Time (UTC+2)
    EET,
    /// South Africa Standard Time (UTC+2)
    SAST,
    /// East Africa Time (UTC+3)
    EAT,
    /// Australian Eastern Standard Time (UTC+10)
    AEST,
    /// Australian Central Standard Time (UTC+9:30)
    ACST,
    /// Australian Western Standard Time (UTC+8)
    AWST,
    /// China Standard Time (UTC+8)
    CSTAsia,
    /// Singapore Time (UTC+8)
    SGT,
    /// Hong Kong Time (UTC+8)
    HKT,
}

impl TimeZone {
    /// The zone's offset from UTC in seconds: what is added to a UTC reading
    /// to get the zone's local reading.
    pub open spec fn offset(&self) -> int {
        match self {
            TimeZone::UTC => 0,
            TimeZone::KST => 32400,
            TimeZone::EST => -18000,
            TimeZone::PST => -28800,
            TimeZone::JST => 32400,
            TimeZone::IST => 19800,
            TimeZone::CET => 3600,
            TimeZone::AST => -14400,
            TimeZone::CST => -21600,
            TimeZone::MST => -25200,
            TimeZone::AKST => -32400,
            TimeZone::HST => -36000,
            TimeZone::BST => 3600,
            TimeZone::WET => 0,
            TimeZone::EET => 7200,
            TimeZone::SAST => 7200,
            TimeZone::EAT => 10800,
            TimeZone::AEST => 36000,
            TimeZone::ACST => 34200,
            TimeZone::AWST => 28800,
            TimeZone::CSTAsia => 28800,
            TimeZone::SGT => 28800,
            TimeZone::HKT => 28800,
        }
    }

    /// Returns the zone's offset from UTC in seconds.
    pub fn offset_in_seconds(&self) -> (seconds: i64)
        ensures
            seconds == self.offset(),
            -43200 <= seconds <= 50400,
    {
        match self {
            TimeZone::UTC => OFFSET_UTC,
            TimeZone::KST => OFFSET_KST,
            TimeZone::EST => OFFSET_EST,
            TimeZone::PST => OFFSET_PST,
            TimeZone::JST => OFFSET_JST,
            TimeZone::IST => OFFSET_IST,
            TimeZone::CET => OFFSET_CET,
            TimeZone::AST => OFFSET_AST,
            TimeZone::CST => OFFSET_CST,
            TimeZone::MST => OFFSET_MST,
            TimeZone::AKST => OFFSET_AKST,
            TimeZone::HST => OFFSET_HST,
            TimeZone::BST => OFFSET_BST,
            TimeZone::WET => OFFSET_WET,
            TimeZone::EET => OFFSET_EET,
            TimeZone::SAST => OFFSET_SAST,
            TimeZone::EAT => OFFSET_EAT,
            TimeZone::AEST => OFFSET_AEST,
            TimeZone::ACST => OFFSET_ACST,
            TimeZone::AWST => OFFSET_AWST,
            TimeZone::CSTAsia => OFFSET_CST_ASIA,
            TimeZone::SGT => OFFSET_SGT,
            TimeZone::HKT => OFFSET_HKT,
        }
    }
}

} // verus!
