//! Decimal texts of integers and of fixed-point readings.

use vstd::prelude::*;
use vstd::string::StringExecFns;

verus! {

/// The character of a decimal digit.
pub open spec fn digit_char(d: int) -> char {
    if d == 0 {
        '0'
    } else if d == 1 {
        '1'
    } else if d == 2 {
        '2'
    } else if d == 3 {
        '3'
    } else if d == 4 {
        '4'
    } else if d == 5 {
        '5'
    } else if d == 6 {
        '6'
    } else if d == 7 {
        '7'
    } else if d == 8 {
        '8'
    } else {
        '9'
    }
}

/// The decimal text of a natural number, without leading zeros.
pub open spec fn number_text(n: nat) -> Seq<char>
    decreases n,
{
    if n < 10 {
        seq![digit_char(n as int)]
    } else {
        number_text(n / 10).push(digit_char((n % 10) as int))
    }
}

/// The sign of a fixed-point value: a minus for anything below zero.
pub open spec fn sign_text(h: int) -> Seq<char> {
    if h < 0 {
        seq!['-']
    } else {
        Seq::<char>::empty()
    }
}

/// The absolute value.
pub open spec fn magnitude(h: int) -> nat {
    if h < 0 {
        (-h) as nat
    } else {
        h as nat
    }
}

/// The text of a value given in hundredths, with both decimals: 2345 is
/// `23.45`, -5 is `-0.05`.
pub open spec fn decimal_text(h: int) -> Seq<char> {
    let a = magnitude(h);
    sign_text(h) + number_text(a / 100) + seq!['.'] + seq![
        digit_char((a / 10 % 10) as int),
        digit_char((a % 10) as int),
    ]
}

/// The text of a value given in hundredths, with one decimal, the second
/// rounded half away from zero: 2345 is `23.5`, 2344 is `23.4`.
pub open spec fn rounded_text(h: int) -> Seq<char> {
    let t = (magnitude(h) + 5) / 10;
    sign_text(h) + number_text(t / 10) + seq!['.'] + seq![digit_char((t % 10) as int)]
}

fn digit_str(d: u64) -> (r: &'static str)
    requires
        d < 10,
    ensures
        r@ == seq![digit_char(d as int)],
{
    proof {
        reveal_strlit("0");
        reveal_strlit("1");
        reveal_strlit("2");
        reveal_strlit("3");
        reveal_strlit("4");
        reveal_strlit("5");
        reveal_strlit("6");
        reveal_strlit("7");
        reveal_strlit("8");
        reveal_strlit("9");
    }
    let r = if d == 0 {
        "0"
    } else if d == 1 {
        "1"
    } else if d == 2 {
        "2"
    } else if d == 3 {
        "3"
    } else if d == 4 {
        "4"
    } else if d == 5 {
        "5"
    } else if d == 6 {
        "6"
    } else if d == 7 {
        "7"
    } else if d == 8 {
        "8"
    } else {
        "9"
    };
    assert(r@ =~= seq![digit_char(d as int)]);
    r
}

/// Appends the decimal text of a number.
pub fn push_number(out: &mut String, n: u64)
    ensures
        final(out)@ == old(out)@ + number_text(n as nat),
    decreases n,
{
    if n >= 10 {
        push_number(out, n / 10);
    }
    out.append(digit_str(n % 10));
    assert(final(out)@ =~= old(out)@ + number_text(n as nat));
}

/// The decimal text of a number.
pub fn number_string(n: u64) -> (r: String)
    ensures
        r@ == number_text(n as nat),
{
    let mut out = String::new();
    push_number(&mut out, n);
    assert(out@ =~= number_text(n as nat));
    out
}

fn magnitude_of(h: i32) -> (r: u64)
    ensures
        r == magnitude(h as int),
{
    if h < 0 {
        (-(h as i64)) as u64
    } else {
        h as u64
    }
}

/// The text of a value in hundredths, with both decimals.
pub fn decimal_string(h: i32) -> (r: String)
    ensures
        r@ == decimal_text(h as int),
{
    proof {
        reveal_strlit("-");
        reveal_strlit(".");
    }
    let a = magnitude_of(h);
    let mut out = String::new();
    if h < 0 {
        out.append("-");
    }
    assert(out@ =~= sign_text(h as int));
    push_number(&mut out, a / 100);
    out.append(".");
    out.append(digit_str(a / 10 % 10));
    out.append(digit_str(a % 10));
    assert(out@ =~= decimal_text(h as int));
    out
}

/// The text of a value in hundredths, with one decimal.
pub fn rounded_string(h: i32) -> (r: String)
    ensures
        r@ == rounded_text(h as int),
{
    proof {
        reveal_strlit("-");
        reveal_strlit(".");
    }
    let t = (magnitude_of(h) + 5) / 10;
    let mut out = String::new();
    if h < 0 {
        out.append("-");
    }
    assert(out@ =~= sign_text(h as int));
    push_number(&mut out, t / 10);
    out.append(".");
    out.append(digit_str(t % 10));
    assert(out@ =~= rounded_text(h as int));
    out
}

} // verus!
