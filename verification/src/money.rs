//! Monetary amounts and multipliers as integers, and their decimal text.
//!
//! An amount is a number of cents and a multiplier is a number of hundredths,
//! so `250` stands for 2.50 in both readings. Nothing in the engine holds a
//! fraction: every value that reaches a session has already been rounded to
//! two decimal places by whoever accepted it from a client.

use vstd::prelude::*;
use vstd::string::*;

verus! {

/// Cents in one unit of currency, and hundredths in the multiplier 1.00.
pub const SCALE: u64 = 100;

/// The character that stands for the decimal digit `d`.
pub open spec fn digit_char(d: nat) -> char {
    if d == 0 {
        '0'
    } else if d == 1 {
        '1'
    } else if d == 2 {
        '2'
    } else if d == 3 {
        '3'
    } else if d == 4 {
        '4'
    } else if d == 5 {
        '5'
    } else if d == 6 {
        '6'
    } else if d == 7 {
        '7'
    } else if d == 8 {
        '8'
    } else {
        '9'
    }
}

/// The decimal digits of `n`, most significant first, without leading zeros.
pub open spec fn decimal(n: nat) -> Seq<char>
    decreases n,
{
    if n < 10 {
        seq![digit_char(n)]
    } else {
        decimal(n / 10).push(digit_char(n % 10))
    }
}

/// The shortest decimal text of an amount of `cents`: the whole part, then a
/// point and one or two fraction digits only where the fraction is not zero.
/// 4000 reads "40", 1250 reads "12.5" and 1234 reads "12.34".
pub open spec fn amount_text(cents: nat) -> Seq<char> {
    let whole = decimal(cents / 100);
    let frac = cents % 100;
    if frac == 0 {
        whole
    } else if frac % 10 == 0 {
        whole + seq!['.', digit_char(frac / 10)]
    } else {
        whole + seq!['.', digit_char(frac / 10), digit_char(frac % 10)]
    }
}

/// The decimal text of an amount of `cents` with exactly two fraction digits:
/// 500 reads "5.00" and 1234 reads "12.34".
pub open spec fn fixed_amount_text(cents: nat) -> Seq<char> {
    decimal(cents / 100) + seq!['.', digit_char((cents % 100) / 10), digit_char(cents % 10)]
}

/// The decimal text of an amount of `cents` as a number with a fraction part:
/// as `amount_text`, but a whole amount keeps one zero behind the point, so
/// 500 reads "5.0".
pub open spec fn fraction_amount_text(cents: nat) -> Seq<char> {
    if cents % 100 == 0 {
        decimal(cents / 100) + seq!['.', '0']
    } else {
        amount_text(cents)
    }
}

/// The decimal text of a signed integer: a minus sign before the digits of a
/// negative number.
pub open spec fn signed_decimal(n: int) -> Seq<char> {
    if n < 0 {
        seq!['-'] + decimal((-n) as nat)
    } else {
        decimal(n as nat)
    }
}

/// The one-character text of the decimal digit `d`.
fn digit_str(d: u64) -> (s: &'static str)
    requires
        d < 10,
    ensures
        s@ == seq![digit_char(d as nat)],
{
    proof {
        reveal_strlit("0");
        reveal_strlit("1");
        reveal_strlit("2");
        reveal_strlit("3");
        reveal_strlit("4");
        reveal_strlit("5");
        reveal_strlit("6");
        reveal_strlit("7");
        reveal_strlit("8");
        reveal_strlit("9");
    }
    let s = if d == 0 {
        "0"
    } else if d == 1 {
        "1"
    } else if d == 2 {
        "2"
    } else if d == 3 {
        "3"
    } else if d == 4 {
        "4"
    } else if d == 5 {
        "5"
    } else if d == 6 {
        "6"
    } else if d == 7 {
        "7"
    } else if d == 8 {
        "8"
    } else {
        "9"
    };
    assert(s@ =~= seq![digit_char(d as nat)]);
    s
}

/// Appends the decimal digits of `n` to `out`.
pub fn push_decimal(out: &mut String, n: u64)
    ensures
        final(out)@ == old(out)@ + decimal(n as nat),
    decreases n,
{
    if n >= 10 {
        push_decimal(out, n / 10);
    }
    out.append(digit_str(n % 10));
    assert(final(out)@ =~= old(out)@ + decimal(n as nat));
}

/// Appends the decimal text of the signed integer `n` to `out`.
pub fn push_signed_decimal(out: &mut String, n: i64)
    ensures
        final(out)@ == old(out)@ + signed_decimal(n as int),
{
    if n < 0 {
        proof {
            reveal_strlit("-");
        }
        out.append("-");
        let magnitude: u64 = if n == i64::MIN {
            9223372036854775808u64
        } else {
            (-n) as u64
        };
        push_decimal(out, magnitude);
        assert(final(out)@ =~= old(out)@ + signed_decimal(n as int));
    } else {
        push_decimal(out, n as u64);
    }
}

/// Appends the shortest decimal text of an amount of `cents` to `out`.
pub fn push_amount(out: &mut String, cents: u64)
    ensures
        final(out)@ == old(out)@ + amount_text(cents as nat),
{
    let frac: u64 = cents % SCALE;
    push_decimal(out, cents / SCALE);
    if frac != 0 {
        proof {
            reveal_strlit(".");
        }
        out.append(".");
        out.append(digit_str(frac / 10));
        if frac % 10 != 0 {
            out.append(digit_str(frac % 10));
        }
    }
    assert(final(out)@ =~= old(out)@ + amount_text(cents as nat));
}

/// Appends the text of an amount of `cents` with two fraction digits to `out`.
pub fn push_fixed_amount(out: &mut String, cents: u64)
    ensures
        final(out)@ == old(out)@ + fixed_amount_text(cents as nat),
{
    proof {
        reveal_strlit(".");
    }
    push_decimal(out, cents / SCALE);
    out.append(".");
    out.append(digit_str((cents % SCALE) / 10));
    out.append(digit_str(cents % 10));
    assert(final(out)@ =~= old(out)@ + fixed_amount_text(cents as nat));
}

/// Appends the text of an amount of `cents`, with at least one fraction
/// digit, to `out`.
pub fn push_fraction_amount(out: &mut String, cents: u64)
    ensures
        final(out)@ == old(out)@ + fraction_amount_text(cents as nat),
{
    if cents % SCALE == 0 {
        proof {
            reveal_strlit(".0");
        }
        push_decimal(out, cents / SCALE);
        out.append(".0");
        assert(final(out)@ =~= old(out)@ + fraction_amount_text(cents as nat));
    } else {
        push_amount(out, cents);
    }
}

} // verus!
