//! A signed span of time in weeks, days, hours, minutes and seconds.

use crate::text::{push_signed, signed_decimal};
use vstd::prelude::*;
use vstd::string::StringExecFns;

verus! {

/// A span of time made of five signed parts. The parts stand side by side:
/// none is carried over into another, and each may have its own sign.
#[derive(Debug, Clone, Copy, PartialEq, Eq, Structural)]
pub struct TimeDelta {
    pub weeks: i64,
    pub days: i64,
    pub hours: i64,
    pub minutes: i64,
    pub seconds: i64,
}

/// The length in seconds of a span of time given by its five parts.
pub open spec fn duration_seconds(
    weeks: int,
    days: int,
    hours: int,
    minutes: int,
    seconds: int,
) -> int {
    weeks * 604800 + days * 86400 + hours * 3600 + minutes * 60 + seconds
}

/// What follows the unit's name: nothing for one unit, forwards or
/// backwards, and an `s` for any other number.
pub open spec fn plural_suffix(value: int) -> Seq<char> {
    if value == 1 || value == -1 {
        Seq::empty()
    } else {
        seq!['s']
    }
}

/// One part in words: the number, a space, and the unit in the singular or
/// the plural.
pub open spec fn clause(value: int, unit: Seq<char>) -> Seq<char> {
    signed_decimal(value) + seq![' '] + unit + plural_suffix(value)
}

/// The clause of a part that is not zero; nothing for a part that is.
pub open spec fn clause_if_nonzero(value: int, unit: Seq<char>) -> Seq<Seq<char>> {
    if value != 0 {
        seq![clause(value, unit)]
    } else {
        Seq::empty()
    }
}

/// The clauses in a row, with a comma and a space between neighbours.
pub open spec fn join_clauses(clauses: Seq<Seq<char>>) -> Seq<char>
    decreases clauses.len(),
{
    if clauses.len() == 0 {
        Seq::empty()
    } else if clauses.len() == 1 {
        clauses[0]
    } else {
        join_clauses(clauses.drop_last()) + seq![',', ' '] + clauses.last()
    }
}

impl TimeDelta {
    /// The length of the span in seconds.
    pub open spec fn total_seconds(&self) -> int {
        duration_seconds(
            self.weeks as int,
            self.days as int,
            self.hours as int,
            self.minutes as int,
            self.seconds as int,
        )
    }

    /// The clauses of the span's rendering: one for each part that is not
    /// zero, from weeks down to seconds. The seconds are also named when
    /// nothing else is, so the list is never empty.
    pub open spec fn clauses(&self) -> Seq<Seq<char>> {
        let larger = clause_if_nonzero(self.weeks as int, "week"@) + clause_if_nonzero(
            self.days as int,
            "day"@,
        ) + clause_if_nonzero(self.hours as int, "hour"@) + clause_if_nonzero(
            self.minutes as int,
            "minute"@,
        );
        if self.seconds != 0 || larger.len() == 0 {
            larger.push(clause(self.seconds as int, "second"@))
        } else {
            larger
        }
    }

    /// The span in words, such as `1 week, 2 days` or `0 seconds`.
    pub open spec fn text(&self) -> Seq<char> {
        join_clauses(self.clauses())
    }

    /// Renders the span in words: the parts that are not zero, from weeks
    /// down to seconds, separated by commas; `0 seconds` for an empty span.
    pub fn to_string(&self) -> (rendered: String)
        ensures
            rendered@ == self.text(),
    {
        let mut out = String::new();
        let mut first = true;
        let ghost mut listed: Seq<Seq<char>> = Seq::empty();
        if self.weeks != 0 {
            push_clause(&mut out, Ghost(listed), first, self.weeks, "week");
            proof {
                listed = listed.push(clause(self.weeks as int, "week"@));
            }
            first = false;
        }
        assert(listed =~= clause_if_nonzero(self.weeks as int, "week"@));
        if self.days != 0 {
            push_clause(&mut out, Ghost(listed), first, self.days, "day");
            proof {
                listed = listed.push(clause(self.days as int, "day"@));
            }
            first = false;
        }
        assert(listed =~= clause_if_nonzero(self.weeks as int, "week"@) + clause_if_nonzero(
            self.days as int,
            "day"@,
        ));
        if self.hours != 0 {
            push_clause(&mut out, Ghost(listed), first, self.hours, "hour");
            proof {
                listed = listed.push(clause(self.hours as int, "hour"@));
            }
            first = false;
        }
        assert(listed =~= clause_if_nonzero(self.weeks as int, "week"@) + clause_if_nonzero(
            self.days as int,
            "day"@,
        ) + clause_if_nonzero(self.hours as int, "hour"@));
        if self.minutes != 0 {
            push_clause(&mut out, Ghost(listed), first, self.minutes, "minute");
            proof {
                listed = listed.push(clause(self.minutes as int, "minute"@));
            }
            first = false;
        }
        assert(listed =~= clause_if_nonzero(self.weeks as int, "week"@) + clause_if_nonzero(
            self.days as int,
            "day"@,
        ) + clause_if_nonzero(self.hours as int, "hour"@) + clause_if_nonzero(
            self.minutes as int,
            "minute"@,
        ));
        if self.seconds != 0 || first {
            push_clause(&mut out, Ghost(listed), first, self.seconds, "second");
            proof {
                listed = listed.push(clause(self.seconds as int, "second"@));
            }
        }
        assert(listed =~= self.clauses());
        out
    }
}

/// Appends one more clause to a rendering that holds the clauses `listed`,
/// after a separator unless it is the first.
fn push_clause(
    out: &mut String,
    Ghost(listed): Ghost<Seq<Seq<char>>>,
    first: bool,
    value: i64,
    unit: &str,
)
    requires
        old(out)@ == join_clauses(listed),
        first == (listed.len() == 0),
    ensures
        final(out)@ == join_clauses(listed.push(clause(value as int, unit@))),
{
    if !first {
        out.push(',');
        out.push(' ');
    }
    push_signed(out, value);
    out.push(' ');
    out.append(unit);
    if !(value == 1 || value == -1) {
        out.push('s');
    }
    proof {
        let added = clause(value as int, unit@);
        let longer = listed.push(added);
        assert(longer.drop_last() =~= listed);
        assert(longer.last() == added);
        if first {
            assert(out@ =~= added);
        } else {
            assert(out@ =~= join_clauses(listed) + seq![',', ' '] + added);
        }
    }
}

impl Default for TimeDelta {
    /// The empty span: every part is zero.
    fn default() -> (delta: Self)
        ensures
            delta == (TimeDelta { weeks: 0, days: 0, hours: 0, minutes: 0, seconds: 0 }),
            delta.total_seconds() == 0,
    {
        Self { weeks: 0, days: 0, hours: 0, minutes: 0, seconds: 0 }
    }
}

/// Returns the length in seconds of a span of time given by its five parts.
/// The length has to fit the result type.
pub fn compute_total_seconds(
    weeks: i64,
    days: i64,
    hours: i64,
    minutes: i64,
    seconds: i64,
) -> (total: i64)
    requires
        i64::MIN <= duration_seconds(
            weeks as int,
            days as int,
            hours as int,
            minutes as int,
            seconds as int,
        ) <= i64::MAX,
    ensures
        total == duration_seconds(
            weeks as int,
            days as int,
            hours as int,
            minutes as int,
            seconds as int,
        ),
{
    let total = total_seconds_wide(weeks, days, hours, minutes, seconds);
    total as i64
}

/// The length in seconds of a span, in a type wide enough for every span.
pub(crate) fn total_seconds_wide(
    weeks: i64,
    days: i64,
    hours: i64,
    minutes: i64,
    seconds: i64,
) -> (total: i128)
    ensures
        total == duration_seconds(
            weeks as int,
            days as int,
            hours as int,
            minutes as int,
            seconds as int,
        ),
{
    weeks as i128 * 604_800 + days as i128 * 86_400 + hours as i128 * 3_600 + minutes as i128 * 60
        + seconds as i128
}

} // verus!
