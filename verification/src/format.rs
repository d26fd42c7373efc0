//! Rendering a date and time through a pattern with `%` directives.

use crate::datetime::DateTime;
use crate::text::{push_zero_padded, zero_padded};
use vstd::prelude::*;

verus! {

/// Whether `letter`, written after a `%`, asks for one of the six fields.
pub open spec fn is_directive(letter: char) -> bool {
    letter == 'Y' || letter == 'm' || letter == 'd' || letter == 'H' || letter == 'M' || letter
        == 'S'
}

/// What the directive `%letter` stands for: the year on at least four
/// digits, or one of the other fields on at least two.
pub open spec fn directive_text(letter: char, date: DateTime) -> Seq<char> {
    if letter == 'Y' {
        zero_padded(date.year as nat, 4)
    } else if letter == 'm' {
        zero_padded(date.month as nat, 2)
    } else if letter == 'd' {
        zero_padded(date.day as nat, 2)
    } else if letter == 'H' {
        zero_padded(date.hour as nat, 2)
    } else if letter == 'M' {
        zero_padded(date.minute as nat, 2)
    } else {
        zero_padded(date.second as nat, 2)
    }
}

/// The pattern with every directive replaced by the field it asks for, read
/// from left to right. All other text, a `%` before any other character
/// included, stays as it is.
pub open spec fn expand(pattern: Seq<char>, date: DateTime) -> Seq<char>
    decreases pattern.len(),
{
    if pattern.len() == 0 {
        Seq::empty()
    } else if pattern.len() >= 2 && pattern[0] == '%' && is_directive(pattern[1]) {
        directive_text(pattern[1], date) + expand(pattern.skip(2), date)
    } else {
        seq![pattern[0]] + expand(pattern.skip(1), date)
    }
}

/// The default rendering, `YYYY-MM-DD HH:MM:SS`.
pub open spec fn default_text(date: DateTime) -> Seq<char> {
    zero_padded(date.year as nat, 4) + seq!['-'] + zero_padded(date.month as nat, 2) + seq!['-']
        + zero_padded(date.day as nat, 2) + seq![' '] + zero_padded(date.hour as nat, 2)
        + seq![':'] + zero_padded(date.minute as nat, 2) + seq![':'] + zero_padded(
        date.second as nat,
        2,
    )
}

/// The characters of `text`, in order.
fn chars_of(text: &str) -> (chars: Vec<char>)
    ensures
        chars@ == text@,
{
    let mut chars: Vec<char> = Vec::new();
    for c in it: text.chars()
        invariant
            it.seq() == text@,
            chars@ == it.seq().take(it.index() as int),
    {
        chars.push(c);
        assert(it.seq().take(it.index() + 1) =~= it.seq().take(it.index() as int).push(c));
    }
    assert(chars@ =~= text@);
    chars
}

fn is_directive_letter(letter: char) -> (known: bool)
    ensures
        known == is_directive(letter),
{
    letter == 'Y' || letter == 'm' || letter == 'd' || letter == 'H' || letter == 'M' || letter
        == 'S'
}

/// Appends to `out` what the directive `%letter` stands for.
fn push_directive(out: &mut String, letter: char, date: &DateTime)
    requires
        is_directive(letter),
    ensures
        final(out)@ == old(out)@ + directive_text(letter, *date),
{
    if letter == 'Y' {
        push_zero_padded(out, date.year, 4);
    } else if letter == 'm' {
        push_zero_padded(out, date.month, 2);
    } else if letter == 'd' {
        push_zero_padded(out, date.day, 2);
    } else if letter == 'H' {
        push_zero_padded(out, date.hour, 2);
    } else if letter == 'M' {
        push_zero_padded(out, date.minute, 2);
    } else {
        push_zero_padded(out, date.second, 2);
    }
}

impl DateTime {
    /// Renders the value through `format`: `%Y` becomes the year on four
    /// digits, `%m`, `%d`, `%H`, `%M` and `%S` the month, day, hour, minute
    /// and second on two, each with zeros in front; the rest of `format` is
    /// copied.
    pub fn strftime(&self, format: &str) -> (formatted: String)
        ensures
            formatted@ == expand(format@, *self),
    {
        let pattern = chars_of(format);
        let mut out = String::new();
        let mut i: usize = 0;
        assert(pattern@.skip(0) =~= pattern@);
        assert(out@ + expand(pattern@, *self) =~= expand(pattern@, *self));
        while i < pattern.len()
            invariant
                i <= pattern.len(),
                out@ + expand(pattern@.skip(i as int), *self) == expand(pattern@, *self),
            decreases pattern.len() - i,
        {
            let ghost rest = pattern@.skip(i as int);
            let c = pattern[i];
            if c == '%' && i + 1 < pattern.len() && is_directive_letter(pattern[i + 1]) {
                push_directive(&mut out, pattern[i + 1], self);
                i = i + 2;
                proof {
                    assert(rest.skip(2) =~= pattern@.skip(i as int));
                    assert(out@ + expand(pattern@.skip(i as int), *self) =~= expand(
                        pattern@,
                        *self,
                    ));
                }
            } else {
                out.push(c);
                i = i + 1;
                proof {
                    assert(rest.skip(1) =~= pattern@.skip(i as int));
                    assert(out@ + expand(pattern@.skip(i as int), *self) =~= expand(
                        pattern@,
                        *self,
                    ));
                }
            }
        }
        assert(out@ =~= expand(pattern@, *self));
        out
    }

    /// Renders the value as `YYYY-MM-DD HH:MM:SS`, each field with zeros in
    /// front up to its width.
    pub fn to_string(&self) -> (rendered: String)
        ensures
            rendered@ == default_text(*self),
    {
        let mut out = String::new();
        push_zero_padded(&mut out, self.year, 4);
        out.push('-');
        push_zero_padded(&mut out, self.month, 2);
        out.push('-');
        push_zero_padded(&mut out, self.day, 2);
        out.push(' ');
        push_zero_padded(&mut out, self.hour, 2);
        out.push(':');
        push_zero_padded(&mut out, self.minute, 2);
        out.push(':');
        push_zero_padded(&mut out, self.second, 2);
        assert(out@ =~= default_text(*self));
        out
    }
}

} // verus!
