use vstd::prelude::*;

verus! {

// Fixed offsets from UTC, in seconds, of the named zones.
pub const OFFSET_UTC: i64 = 0;
pub const OFFSET_KST: i64 = 32400;
pub const OFFSET_EST: i64 = -18000;
pub const OFFSET_PST: i64 = -28800;
pub const OFFSET_JST: i64 = 32400;
pub const OFFSET_IST: i64 = 19800;
pub const OFFSET_CET: i64 = 3600;
pub const OFFSET_AST: i64 = -14400;
pub const OFFSET_CST: i64 = -21600;
pub const OFFSET_MST: i64 = -25200;
pub const OFFSET_AKST: i64 = -32400;
pub const OFFSET_HST: i64 = -36000;
pub const OFFSET_BST: i64 = 3600;
pub const OFFSET_WET: i64 = 0;
pub const OFFSET_EET: i64 = 7200;
pub const OFFSET_SAST: i64 = 7200;
pub const OFFSET_EAT: i64 = 10800;
pub const OFFSET_AEST: i64 = 36000;
pub const OFFSET_ACST: i64 = 34200;
pub const OFFSET_AWST: i64 = 28800;
pub const OFFSET_CST_ASIA: i64 = 28800;
pub const OFFSET_SGT: i64 = 28800;
pub const OFFSET_HKT: i64 = 28800;

// Lengths of the time units, in seconds.
pub const SECONDS_IN_LEAPYEAR: u64 = 31_622_400;
pub const SECONDS_IN_YEAR: u64 = 31_536_000;
pub const SECONDS_IN_MONTH: u64 = 2_592_000;
pub const SECONDS_IN_WEEK: u64 = 604_800;
pub const SECONDS_IN_DAY: u64 = 86_400;
pub const SECONDS_IN_HOUR: u64 = 3_600;
pub const SECONDS_IN_MINUTE: u64 = 60;

} // verus!
