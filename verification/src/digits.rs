//! Decimal digits and fixed-point rendering.
//!
//! Quantities are carried as signed integers counting thousandths of a unit,
//! so `21500` renders as `21.500`.  This module provides the digit-level
//! building blocks and the three-decimal rendering used by the document
//! builder.

use vstd::prelude::*;
use vstd::string::StringExecFns;

verus! {

/// The decimal digit character for `n`; meaningful only for `n < 10`.
pub open spec fn digit_char(n: nat) -> char {
    if n == 0 {
        '0'
    } else if n == 1 {
        '1'
    } else if n == 2 {
        '2'
    } else if n == 3 {
        '3'
    } else if n == 4 {
        '4'
    } else if n == 5 {
        '5'
    } else if n == 6 {
        '6'
    } else if n == 7 {
        '7'
    } else if n == 8 {
        '8'
    } else {
        '9'
    }
}

/// The numeric value of a decimal digit character; `10` marks a non-digit.
pub open spec fn digit_val(c: char) -> nat {
    if c == '0' {
        0
    } else if c == '1' {
        1
    } else if c == '2' {
        2
    } else if c == '3' {
        3
    } else if c == '4' {
        4
    } else if c == '5' {
        5
    } else if c == '6' {
        6
    } else if c == '7' {
        7
    } else if c == '8' {
        8
    } else if c == '9' {
        9
    } else {
        10
    }
}

/// Reading a digit character back yields the digit it was made from.
pub proof fn lemma_digit_round_trip(n: nat)
    requires
        n < 10,
    ensures
        digit_val(digit_char(n)) == n,
{
}

/// The one-character string for a decimal digit.
pub fn fmt_digit(n: u64) -> (r: &'static str)
    requires
        n < 10,
    ensures
        r@ == seq![digit_char(n as nat)],
{
    proof {
        reveal_strlit("0");
        reveal_strlit("1");
        reveal_strlit("2");
        reveal_strlit("3");
        reveal_strlit("4");
        reveal_strlit("5");
        reveal_strlit("6");
        reveal_strlit("7");
        reveal_strlit("8");
        reveal_strlit("9");
        assert("0"@ =~= seq![digit_char(0)]);
        assert("1"@ =~= seq![digit_char(1)]);
        assert("2"@ =~= seq![digit_char(2)]);
        assert("3"@ =~= seq![digit_char(3)]);
        assert("4"@ =~= seq![digit_char(4)]);
        assert("5"@ =~= seq![digit_char(5)]);
        assert("6"@ =~= seq![digit_char(6)]);
        assert("7"@ =~= seq![digit_char(7)]);
        assert("8"@ =~= seq![digit_char(8)]);
        assert("9"@ =~= seq![digit_char(9)]);
    }
    if n == 0 {
        "0"
    } else if n == 1 {
        "1"
    } else if n == 2 {
        "2"
    } else if n == 3 {
        "3"
    } else if n == 4 {
        "4"
    } else if n == 5 {
        "5"
    } else if n == 6 {
        "6"
    } else if n == 7 {
        "7"
    } else if n == 8 {
        "8"
    } else {
        "9"
    }
}

/// The decimal digit characters of `n`, most significant first, no padding.
pub open spec fn dec_chars(n: nat) -> Seq<char>
    decreases n,
{
    if n < 10 {
        seq![digit_char(n)]
    } else {
        dec_chars(n / 10).push(digit_char(n % 10))
    }
}

/// Render an unsigned integer in decimal.
pub fn fmt_u64(n: u64) -> (r: String)
    ensures
        r@ == dec_chars(n as nat),
    decreases n,
{
    if n < 10 {
        fmt_digit(n).to_owned()
    } else {
        let mut s = fmt_u64(n / 10);
        s.append(fmt_digit(n % 10));
        proof {
            assert(s@ =~= dec_chars(n as nat));
        }
        s
    }
}

/// The three-decimal rendering of a nonnegative count of thousandths:
/// the whole part in decimal, a point, and exactly three fraction digits.
pub open spec fn milli_abs_chars(m: nat) -> Seq<char> {
    let f = m % 1000;
    dec_chars(m / 1000) + seq![
        '.',
        digit_char((f / 100) as nat),
        digit_char(((f / 10) % 10) as nat),
        digit_char((f % 10) as nat),
    ]
}

/// The three-decimal rendering of a signed count of thousandths.
pub open spec fn milli_chars(v: int) -> Seq<char> {
    if v < 0 {
        seq!['-'] + milli_abs_chars((-v) as nat)
    } else {
        milli_abs_chars(v as nat)
    }
}

/// Render a signed count of thousandths with exactly three decimals, as
/// `21500` to `21.500`.
pub fn fmt_milli(v: i64) -> (r: String)
    requires
        v > i64::MIN,
    ensures
        r@ == milli_chars(v as int),
{
    let a: u64 = if v < 0 {
        (-v) as u64
    } else {
        v as u64
    };
    let mut s = if v < 0 {
        "-".to_owned()
    } else {
        String::new()
    };
    let f = a % 1000;
    s.append(fmt_u64(a / 1000).as_str());
    s.append(".");
    s.append(fmt_digit(f / 100));
    s.append(fmt_digit((f / 10) % 10));
    s.append(fmt_digit(f % 10));
    proof {
        reveal_strlit("-");
        reveal_strlit(".");
        assert(s@ =~= milli_chars(v as int));
    }
    s
}

} // verus!
