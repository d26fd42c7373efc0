//! Decimal rendering of integers, and the few string primitives the
//! formatting code is built from.

use vstd::prelude::*;

verus! {

/// `String::push` appends the given character to the end of the string and
/// leaves what was there before untouched.
pub assume_specification[ String::push ](s: &mut String, ch: char)
    ensures
        final(s)@ == old(s)@.push(ch),
;

/// The character of the decimal digit `d`.
pub open spec fn digit_char(d: int) -> char {
    if d == 0 {
        '0'
    } else if d == 1 {
        '1'
    } else if d == 2 {
        '2'
    } else if d == 3 {
        '3'
    } else if d == 4 {
        '4'
    } else if d == 5 {
        '5'
    } else if d == 6 {
        '6'
    } else if d == 7 {
        '7'
    } else if d == 8 {
        '8'
    } else {
        '9'
    }
}

/// The decimal digits of `n`, most significant first, without leading zeros
/// (a single `0` for zero).
pub open spec fn decimal_digits(n: nat) -> Seq<char>
    decreases n,
{
    if n < 10 {
        seq![digit_char(n as int)]
    } else {
        decimal_digits(n / 10).push(digit_char((n % 10) as int))
    }
}

/// A run of `count` zeros.
pub open spec fn zeros(count: nat) -> Seq<char> {
    Seq::new(count, |i: int| '0')
}

/// The decimal digits of `n`, with zeros in front where there are fewer than
/// `width` of them. A number with more digits is not cut.
pub open spec fn zero_padded(n: nat, width: nat) -> Seq<char> {
    let digits = decimal_digits(n);
    if digits.len() >= width {
        digits
    } else {
        zeros((width - digits.len()) as nat) + digits
    }
}

/// The decimal rendering of a signed integer: a minus sign in front of the
/// digits of a negative number.
pub open spec fn signed_decimal(n: int) -> Seq<char> {
    if n < 0 {
        seq!['-'] + decimal_digits((-n) as nat)
    } else {
        decimal_digits(n as nat)
    }
}

fn digit(d: u64) -> (c: char)
    requires
        d < 10,
    ensures
        c == digit_char(d as int),
{
    match d {
        0 => '0',
        1 => '1',
        2 => '2',
        3 => '3',
        4 => '4',
        5 => '5',
        6 => '6',
        7 => '7',
        8 => '8',
        _ => '9',
    }
}

/// Appends the decimal digits of `n` to `out`.
pub(crate) fn push_decimal(out: &mut String, n: u64)
    ensures
        final(out)@ == old(out)@ + decimal_digits(n as nat),
    decreases n,
{
    if n >= 10 {
        push_decimal(out, n / 10);
    }
    out.push(digit(n % 10));
    proof {
        let before = old(out)@;
        if n >= 10 {
            assert(before + decimal_digits(n as nat) =~= (before + decimal_digits(
                (n / 10) as nat,
            )).push(digit_char((n % 10) as int)));
        } else {
            assert(before + decimal_digits(n as nat) =~= before.push(digit_char(n as int)));
        }
    }
}

/// Counts the decimal digits of `n`.
fn decimal_width(n: u64) -> (width: usize)
    ensures
        width == decimal_digits(n as nat).len(),
        1 <= width <= 20,
    decreases n,
{
    if n < 10 {
        1
    } else {
        let rest = decimal_width(n / 10);
        proof {
            lemma_width_bound(n as nat);
        }
        rest + 1
    }
}

/// A number below `10^k` has at most `k` digits; so no `u64` has more than 20.
proof fn lemma_width_bound(n: nat)
    ensures
        decimal_digits(n).len() >= 1,
        n < 10 ==> decimal_digits(n).len() == 1,
        n >= 10 ==> decimal_digits(n).len() == decimal_digits(n / 10).len() + 1,
        n <= u64::MAX ==> decimal_digits(n).len() <= 20,
{
    reveal_with_fuel(decimal_digits, 21);
    assert(n <= u64::MAX ==> n / 10 / 10 / 10 / 10 / 10 / 10 / 10 / 10 / 10 / 10 / 10 / 10 / 10
        / 10 / 10 / 10 / 10 / 10 / 10 < 10);
}

/// Appends `n` in decimal to `out`, with zeros in front up to `width`
/// characters.
pub(crate) fn push_zero_padded(out: &mut String, n: u64, width: usize)
    ensures
        final(out)@ == old(out)@ + zero_padded(n as nat, width as nat),
{
    let digits = decimal_width(n);
    let mut filled: usize = digits;
    while filled < width
        invariant
            digits == decimal_digits(n as nat).len(),
            digits <= filled,
            filled <= width || filled == digits,
            out@ =~= old(out)@ + zeros((filled - digits) as nat),
        decreases width - filled,
    {
        out.push('0');
        filled = filled + 1;
        assert(zeros((filled - digits) as nat) =~= zeros((filled - 1 - digits) as nat).push('0'));
    }
    push_decimal(out, n);
    proof {
        let before = old(out)@;
        let pad = zeros((filled - digits) as nat);
        assert(zeros(0) =~= Seq::<char>::empty());
        assert((before + pad) + decimal_digits(n as nat) =~= before + (pad + decimal_digits(
            n as nat,
        )));
        assert(before + Seq::<char>::empty() + decimal_digits(n as nat) =~= before
            + decimal_digits(n as nat));
    }
}

/// Appends the decimal rendering of the signed `n` to `out`.
pub(crate) fn push_signed(out: &mut String, n: i64)
    ensures
        final(out)@ == old(out)@ + signed_decimal(n as int),
{
    if n < 0 {
        out.push('-');
        let magnitude: i128 = -(n as i128);
        push_decimal(out, magnitude as u64);
        proof {
            let before = old(out)@;
            assert(before.push('-') + decimal_digits((-n) as nat) =~= before + (seq!['-']
                + decimal_digits((-n) as nat)));
        }
    } else {
        push_decimal(out, n as u64);
    }
}

} // verus!
