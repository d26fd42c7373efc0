//! `+` and `-` between a date and a span of time.

use crate::datetime::DateTime;
use crate::epoch::seconds_limit;
use crate::timedelta::TimeDelta;
use std::ops::{Add, Sub};
use vstd::prelude::*;
use vstd::std_specs::ops::{AddSpecImpl, SubSpecImpl};

verus! {

impl Add<TimeDelta> for DateTime {
    type Output = Result<DateTime, String>;

    /// `date + delta` is `date.add_timedelta(delta)`.
    fn add(self, delta: TimeDelta) -> (result: Result<DateTime, String>)
        ensures
            DateTime::moved(self.unix_seconds() + delta.total_seconds(), self.timezone, result),
    {
        self.add_timedelta(delta)
    }
}

/// What `+` asks of its operands. Its result is described by the `ensures`
/// of `add` itself, a `String` having no value that a spec function could
/// build; so `add_spec` is left open.
impl AddSpecImpl<TimeDelta> for DateTime {
    open spec fn obeys_add_spec() -> bool {
        false
    }

    open spec fn add_req(self, delta: TimeDelta) -> bool {
        self.unix_seconds() + delta.total_seconds() + self.timezone.offset() < seconds_limit()
    }

    open spec fn add_spec(self, delta: TimeDelta) -> Result<DateTime, String> {
        arbitrary()
    }
}

impl Sub<TimeDelta> for DateTime {
    type Output = Result<DateTime, String>;

    /// `date - delta` is `date.sub_timedelta(delta)`.
    fn sub(self, delta: TimeDelta) -> (result: Result<DateTime, String>)
        ensures
            DateTime::moved(self.unix_seconds() - delta.total_seconds(), self.timezone, result),
    {
        self.sub_timedelta(delta)
    }
}

/// What `-` asks of its operands. Its result is described by the `ensures`
/// of `sub` itself; `sub_spec` is left open.
impl SubSpecImpl<TimeDelta> for DateTime {
    open spec fn obeys_sub_spec() -> bool {
        false
    }

    open spec fn sub_req(self, delta: TimeDelta) -> bool {
        self.unix_seconds() - delta.total_seconds() + self.timezone.offset() < seconds_limit()
    }

    open spec fn sub_spec(self, delta: TimeDelta) -> Result<DateTime, String> {
        arbitrary()
    }
}

} // verus!
