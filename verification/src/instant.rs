//! A captured wall-clock instant and its two renderings.
//!
//! One instant is captured per measurement cycle and rendered twice from the
//! same value: a human-readable `YYYY/MM/DD HH:MM:SS` string stored in the
//! document, and a compact `YYYYMMDDHHMMSS` string used as the document's
//! identifier.  Both renderings decode back to the instant they were made
//! from.

use vstd::prelude::*;
use vstd::string::StringExecFns;
use vstd::string::StrSliceExecFns;
use vstd::arithmetic::div_mod::lemma_fundamental_div_mod;
use vstd::arithmetic::div_mod::lemma_div_denominator;
use vstd::arithmetic::div_mod::lemma_div_is_ordered;
use crate::digits::digit_char;
use crate::digits::digit_val;
use crate::digits::lemma_digit_round_trip;
use chrono::Datelike;
use chrono::Timelike;

verus! {

/// A wall-clock instant, to one-second resolution, in the local time zone.
#[derive(Clone, Copy, PartialEq, Eq, Structural, Debug)]
pub struct Instant {
    pub year: u32,
    pub month: u32,
    pub day: u32,
    pub hour: u32,
    pub minute: u32,
    pub second: u32,
}

impl Instant {
    /// Field ranges under which both renderings are well-defined.
    pub open spec fn valid(self) -> bool {
        &&& 1 <= self.year <= 9999
        &&& 1 <= self.month <= 12
        &&& 1 <= self.day <= 31
        &&& self.hour <= 23
        &&& self.minute <= 59
        &&& self.second <= 59
    }
}

/// The `YYYY/MM/DD HH:MM:SS` rendering of an instant.
pub open spec fn datetime_chars(i: Instant) -> Seq<char> {
    seq![
        digit_char((i.year / 1000) as nat),
        digit_char(((i.year / 100) % 10) as nat),
        digit_char(((i.year / 10) % 10) as nat),
        digit_char((i.year % 10) as nat),
        '/',
        digit_char((i.month / 10) as nat),
        digit_char((i.month % 10) as nat),
        '/',
        digit_char((i.day / 10) as nat),
        digit_char((i.day % 10) as nat),
        ' ',
        digit_char((i.hour / 10) as nat),
        digit_char((i.hour % 10) as nat),
        ':',
        digit_char((i.minute / 10) as nat),
        digit_char((i.minute % 10) as nat),
        ':',
        digit_char((i.second / 10) as nat),
        digit_char((i.second % 10) as nat),
    ]
}

/// The compact `YYYYMMDDHHMMSS` rendering of an instant.
pub open spec fn doc_id_chars(i: Instant) -> Seq<char> {
    seq![
        digit_char((i.year / 1000) as nat),
        digit_char(((i.year / 100) % 10) as nat),
        digit_char(((i.year / 10) % 10) as nat),
        digit_char((i.year % 10) as nat),
        digit_char((i.month / 10) as nat),
        digit_char((i.month % 10) as nat),
        digit_char((i.day / 10) as nat),
        digit_char((i.day % 10) as nat),
        digit_char((i.hour / 10) as nat),
        digit_char((i.hour % 10) as nat),
        digit_char((i.minute / 10) as nat),
        digit_char((i.minute % 10) as nat),
        digit_char((i.second / 10) as nat),
        digit_char((i.second % 10) as nat),
    ]
}

/// The one-character string for a decimal digit (local exec mirror of
/// `digits::digit_char`, specialised to `u32` sources).
fn digit_str32(n: u32) -> (r: &'static str)
    requires
        n < 10,
    ensures
        r@ == seq![digit_char(n as nat)],
{
    crate::digits::fmt_digit(n as u64)
}

/// Append the two zero-padded decimal digits of `n` (< 100).
fn push_pad2(s: &mut String, n: u32)
    requires
        n < 100,
    ensures
        final(s)@ == old(s)@ + seq![
            digit_char((n / 10) as nat),
            digit_char((n % 10) as nat),
        ],
{
    s.append(digit_str32(n / 10));
    s.append(digit_str32(n % 10));
    proof {
        assert(s@ =~= old(s)@ + seq![
            digit_char((n / 10) as nat),
            digit_char((n % 10) as nat),
        ]);
    }
}

/// Append the four zero-padded decimal digits of `n` (< 10000).
fn push_pad4(s: &mut String, n: u32)
    requires
        n < 10000,
    ensures
        final(s)@ == old(s)@ + seq![
            digit_char((n / 1000) as nat),
            digit_char(((n / 100) % 10) as nat),
            digit_char(((n / 10) % 10) as nat),
            digit_char((n % 10) as nat),
        ],
{
    s.append(digit_str32(n / 1000));
    s.append(digit_str32((n / 100) % 10));
    s.append(digit_str32((n / 10) % 10));
    s.append(digit_str32(n % 10));
    proof {
        assert(s@ =~= old(s)@ + seq![
            digit_char((n / 1000) as nat),
            digit_char(((n / 100) % 10) as nat),
            digit_char(((n / 10) % 10) as nat),
            digit_char((n % 10) as nat),
        ]);
    }
}

/// Render an instant as `YYYY/MM/DD HH:MM:SS`.
pub fn format_datetime(i: &Instant) -> (r: String)
    requires
        i.valid(),
    ensures
        r@ == datetime_chars(*i),
{
    let mut s = String::new();
    push_pad4(&mut s, i.year);
    s.append("/");
    push_pad2(&mut s, i.month);
    s.append("/");
    push_pad2(&mut s, i.day);
    s.append(" ");
    push_pad2(&mut s, i.hour);
    s.append(":");
    push_pad2(&mut s, i.minute);
    s.append(":");
    push_pad2(&mut s, i.second);
    proof {
        reveal_strlit("/");
        reveal_strlit(" ");
        reveal_strlit(":");
        assert(s@ =~= datetime_chars(*i));
    }
    s
}

/// Render an instant as the compact `YYYYMMDDHHMMSS` identifier.
pub fn format_doc_id(i: &Instant) -> (r: String)
    requires
        i.valid(),
    ensures
        r@ == doc_id_chars(*i),
{
    let mut s = String::new();
    push_pad4(&mut s, i.year);
    push_pad2(&mut s, i.month);
    push_pad2(&mut s, i.day);
    push_pad2(&mut s, i.hour);
    push_pad2(&mut s, i.minute);
    push_pad2(&mut s, i.second);
    proof {
        assert(s@ =~= doc_id_chars(*i));
    }
    s
}

/// Whether `c` is a decimal digit character.
pub open spec fn is_digit(c: char) -> bool {
    digit_val(c) < 10
}

/// `Some(i)` when the fields are in range, `None` otherwise.
pub open spec fn in_range(i: Instant) -> Option<Instant> {
    if i.valid() {
        Some(i)
    } else {
        None
    }
}

/// Decode `YYYY/MM/DD HH:MM:SS`; `None` when the shape or a field range is
/// off.
pub open spec fn parse_datetime_chars(s: Seq<char>) -> Option<Instant> {
    if s.len() == 19 && is_digit(s[0]) && is_digit(s[1]) && is_digit(s[2]) && is_digit(s[3])
        && s[4] == '/' && is_digit(s[5]) && is_digit(s[6]) && s[7] == '/' && is_digit(s[8])
        && is_digit(s[9]) && s[10] == ' ' && is_digit(s[11]) && is_digit(s[12]) && s[13] == ':'
        && is_digit(s[14]) && is_digit(s[15]) && s[16] == ':' && is_digit(s[17]) && is_digit(
        s[18],
    ) {
        in_range(
            Instant {
                year: (digit_val(s[0]) * 1000 + digit_val(s[1]) * 100 + digit_val(s[2]) * 10
                    + digit_val(s[3])) as u32,
                month: (digit_val(s[5]) * 10 + digit_val(s[6])) as u32,
                day: (digit_val(s[8]) * 10 + digit_val(s[9])) as u32,
                hour: (digit_val(s[11]) * 10 + digit_val(s[12])) as u32,
                minute: (digit_val(s[14]) * 10 + digit_val(s[15])) as u32,
                second: (digit_val(s[17]) * 10 + digit_val(s[18])) as u32,
            },
        )
    } else {
        None
    }
}

/// Decode the compact `YYYYMMDDHHMMSS` identifier; `None` when the shape or a
/// field range is off.
pub open spec fn parse_doc_id_chars(s: Seq<char>) -> Option<Instant> {
    if s.len() == 14 && is_digit(s[0]) && is_digit(s[1]) && is_digit(s[2]) && is_digit(s[3])
        && is_digit(s[4]) && is_digit(s[5]) && is_digit(s[6]) && is_digit(s[7]) && is_digit(s[8])
        && is_digit(s[9]) && is_digit(s[10]) && is_digit(s[11]) && is_digit(s[12]) && is_digit(
        s[13],
    ) {
        in_range(
            Instant {
                year: (digit_val(s[0]) * 1000 + digit_val(s[1]) * 100 + digit_val(s[2]) * 10
                    + digit_val(s[3])) as u32,
                month: (digit_val(s[4]) * 10 + digit_val(s[5])) as u32,
                day: (digit_val(s[6]) * 10 + digit_val(s[7])) as u32,
                hour: (digit_val(s[8]) * 10 + digit_val(s[9])) as u32,
                minute: (digit_val(s[10]) * 10 + digit_val(s[11])) as u32,
                second: (digit_val(s[12]) * 10 + digit_val(s[13])) as u32,
            },
        )
    } else {
        None
    }
}

/// The numeric value of a digit character; `10` for any other character.
fn char_digit(c: char) -> (r: u32)
    ensures
        r as nat == digit_val(c),
{
    if c == '0' {
        0
    } else if c == '1' {
        1
    } else if c == '2' {
        2
    } else if c == '3' {
        3
    } else if c == '4' {
        4
    } else if c == '5' {
        5
    } else if c == '6' {
        6
    } else if c == '7' {
        7
    } else if c == '8' {
        8
    } else if c == '9' {
        9
    } else {
        10
    }
}

/// Parse a `YYYY/MM/DD HH:MM:SS` string back into an instant.
pub fn parse_datetime(s: &str) -> (r: Option<Instant>)
    ensures
        r == parse_datetime_chars(s@),
{
    if s.unicode_len() != 19 {
        return None;
    }
    let d0 = char_digit(s.get_char(0));
    let d1 = char_digit(s.get_char(1));
    let d2 = char_digit(s.get_char(2));
    let d3 = char_digit(s.get_char(3));
    let d5 = char_digit(s.get_char(5));
    let d6 = char_digit(s.get_char(6));
    let d8 = char_digit(s.get_char(8));
    let d9 = char_digit(s.get_char(9));
    let d11 = char_digit(s.get_char(11));
    let d12 = char_digit(s.get_char(12));
    let d14 = char_digit(s.get_char(14));
    let d15 = char_digit(s.get_char(15));
    let d17 = char_digit(s.get_char(17));
    let d18 = char_digit(s.get_char(18));
    if d0 >= 10 || d1 >= 10 || d2 >= 10 || d3 >= 10 || d5 >= 10 || d6 >= 10 || d8 >= 10 || d9 >= 10
        || d11 >= 10 || d12 >= 10 || d14 >= 10 || d15 >= 10 || d17 >= 10 || d18 >= 10 {
        return None;
    }
    if s.get_char(4) != '/' || s.get_char(7) != '/' || s.get_char(10) != ' ' || s.get_char(13)
        != ':' || s.get_char(16) != ':' {
        return None;
    }
    let i = Instant {
        year: d0 * 1000 + d1 * 100 + d2 * 10 + d3,
        month: d5 * 10 + d6,
        day: d8 * 10 + d9,
        hour: d11 * 10 + d12,
        minute: d14 * 10 + d15,
        second: d17 * 10 + d18,
    };
    if 1 <= i.year && 1 <= i.month && i.month <= 12 && 1 <= i.day && i.day <= 31 && i.hour <= 23
        && i.minute <= 59 && i.second <= 59 {
        Some(i)
    } else {
        None
    }
}

/// Parse a compact `YYYYMMDDHHMMSS` identifier back into an instant.
pub fn parse_doc_id(s: &str) -> (r: Option<Instant>)
    ensures
        r == parse_doc_id_chars(s@),
{
    if s.unicode_len() != 14 {
        return None;
    }
    let d0 = char_digit(s.get_char(0));
    let d1 = char_digit(s.get_char(1));
    let d2 = char_digit(s.get_char(2));
    let d3 = char_digit(s.get_char(3));
    let d4 = char_digit(s.get_char(4));
    let d5 = char_digit(s.get_char(5));
    let d6 = char_digit(s.get_char(6));
    let d7 = char_digit(s.get_char(7));
    let d8 = char_digit(s.get_char(8));
    let d9 = char_digit(s.get_char(9));
    let d10 = char_digit(s.get_char(10));
    let d11 = char_digit(s.get_char(11));
    let d12 = char_digit(s.get_char(12));
    let d13 = char_digit(s.get_char(13));
    if d0 >= 10 || d1 >= 10 || d2 >= 10 || d3 >= 10 || d4 >= 10 || d5 >= 10 || d6 >= 10 || d7 >= 10
        || d8 >= 10 || d9 >= 10 || d10 >= 10 || d11 >= 10 || d12 >= 10 || d13 >= 10 {
        return None;
    }
    let i = Instant {
        year: d0 * 1000 + d1 * 100 + d2 * 10 + d3,
        month: d4 * 10 + d5,
        day: d6 * 10 + d7,
        hour: d8 * 10 + d9,
        minute: d10 * 10 + d11,
        second: d12 * 10 + d13,
    };
    if 1 <= i.year && 1 <= i.month && i.month <= 12 && 1 <= i.day && i.day <= 31 && i.hour <= 23
        && i.minute <= 59 && i.second <= 59 {
        Some(i)
    } else {
        None
    }
}

/// A four-digit number is rebuilt from its zero-padded decimal digits.
proof fn lemma_rebuild4(y: int)
    requires
        0 <= y < 10000,
    ensures
        (y / 1000) * 1000 + ((y / 100) % 10) * 100 + ((y / 10) % 10) * 10 + y % 10 == y,
        y / 1000 < 10,
        (y / 100) % 10 < 10,
        (y / 10) % 10 < 10,
        y % 10 < 10,
{
    lemma_fundamental_div_mod(y, 10);
    lemma_fundamental_div_mod(y / 10, 10);
    lemma_fundamental_div_mod(y / 100, 10);
    lemma_div_denominator(y, 10, 10);
    lemma_div_denominator(y, 100, 10);
    lemma_div_is_ordered(y, 9999, 1000);
}

/// A two-digit number is rebuilt from its zero-padded decimal digits.
proof fn lemma_rebuild2(m: int)
    requires
        0 <= m < 100,
    ensures
        (m / 10) * 10 + m % 10 == m,
        m / 10 < 10,
        m % 10 < 10,
{
    lemma_fundamental_div_mod(m, 10);
}

/// Every digit of both renderings reads back as the field digit it was made
/// from.
proof fn lemma_instant_digits(i: Instant)
    requires
        i.valid(),
    ensures
        digit_val(digit_char((i.year / 1000) as nat)) * 1000 + digit_val(
            digit_char(((i.year / 100) % 10) as nat),
        ) * 100 + digit_val(digit_char(((i.year / 10) % 10) as nat)) * 10 + digit_val(
            digit_char((i.year % 10) as nat),
        ) == i.year,
        digit_val(digit_char((i.month / 10) as nat)) * 10 + digit_val(
            digit_char((i.month % 10) as nat),
        ) == i.month,
        digit_val(digit_char((i.day / 10) as nat)) * 10 + digit_val(
            digit_char((i.day % 10) as nat),
        ) == i.day,
        digit_val(digit_char((i.hour / 10) as nat)) * 10 + digit_val(
            digit_char((i.hour % 10) as nat),
        ) == i.hour,
        digit_val(digit_char((i.minute / 10) as nat)) * 10 + digit_val(
            digit_char((i.minute % 10) as nat),
        ) == i.minute,
        digit_val(digit_char((i.second / 10) as nat)) * 10 + digit_val(
            digit_char((i.second % 10) as nat),
        ) == i.second,
{
    lemma_rebuild4(i.year as int);
    lemma_rebuild2(i.month as int);
    lemma_rebuild2(i.day as int);
    lemma_rebuild2(i.hour as int);
    lemma_rebuild2(i.minute as int);
    lemma_rebuild2(i.second as int);
    lemma_digit_round_trip((i.year / 1000) as nat);
    lemma_digit_round_trip(((i.year / 100) % 10) as nat);
    lemma_digit_round_trip(((i.year / 10) % 10) as nat);
    lemma_digit_round_trip((i.year % 10) as nat);
    lemma_digit_round_trip((i.month / 10) as nat);
    lemma_digit_round_trip((i.month % 10) as nat);
    lemma_digit_round_trip((i.day / 10) as nat);
    lemma_digit_round_trip((i.day % 10) as nat);
    lemma_digit_round_trip((i.hour / 10) as nat);
    lemma_digit_round_trip((i.hour % 10) as nat);
    lemma_digit_round_trip((i.minute / 10) as nat);
    lemma_digit_round_trip((i.minute % 10) as nat);
    lemma_digit_round_trip((i.second / 10) as nat);
    lemma_digit_round_trip((i.second % 10) as nat);
}

/// The `YYYY/MM/DD HH:MM:SS` rendering of a valid instant decodes back to
/// that instant.
#[verifier::rlimit(100)]
pub proof fn lemma_datetime_round_trip(i: Instant)
    requires
        i.valid(),
    ensures
        parse_datetime_chars(datetime_chars(i)) == Some(i),
{
    lemma_instant_digits(i);
    let s = datetime_chars(i);
    let parsed = Instant {
        year: (digit_val(s[0]) * 1000 + digit_val(s[1]) * 100 + digit_val(s[2]) * 10 + digit_val(
            s[3],
        )) as u32,
        month: (digit_val(s[5]) * 10 + digit_val(s[6])) as u32,
        day: (digit_val(s[8]) * 10 + digit_val(s[9])) as u32,
        hour: (digit_val(s[11]) * 10 + digit_val(s[12])) as u32,
        minute: (digit_val(s[14]) * 10 + digit_val(s[15])) as u32,
        second: (digit_val(s[17]) * 10 + digit_val(s[18])) as u32,
    };
    assert(parsed == i);
    assert(parse_datetime_chars(s) == in_range(parsed));
}

/// The compact `YYYYMMDDHHMMSS` rendering of a valid instant decodes back to
/// that instant.
#[verifier::rlimit(100)]
pub proof fn lemma_doc_id_round_trip(i: Instant)
    requires
        i.valid(),
    ensures
        parse_doc_id_chars(doc_id_chars(i)) == Some(i),
{
    lemma_instant_digits(i);
    let s = doc_id_chars(i);
    let parsed = Instant {
        year: (digit_val(s[0]) * 1000 + digit_val(s[1]) * 100 + digit_val(s[2]) * 10 + digit_val(
            s[3],
        )) as u32,
        month: (digit_val(s[4]) * 10 + digit_val(s[5])) as u32,
        day: (digit_val(s[6]) * 10 + digit_val(s[7])) as u32,
        hour: (digit_val(s[8]) * 10 + digit_val(s[9])) as u32,
        minute: (digit_val(s[10]) * 10 + digit_val(s[11])) as u32,
        second: (digit_val(s[12]) * 10 + digit_val(s[13])) as u32,
    };
    assert(parsed == i);
    assert(parse_doc_id_chars(s) == in_range(parsed));
}

/// Both renderings of a valid instant decode back to that same instant: the
/// document's `datetime` and its identifier always name the same wall-clock
/// second.
pub proof fn lemma_instant_round_trip(i: Instant)
    requires
        i.valid(),
    ensures
        parse_datetime_chars(datetime_chars(i)) == Some(i),
        parse_doc_id_chars(doc_id_chars(i)) == Some(i),
{
    lemma_datetime_round_trip(i);
    lemma_doc_id_round_trip(i);
}

/// Relies on `chrono::Local::now` and the `Datelike`/`Timelike` accessors,
/// whose documentation bounds them: month 1..=12, day 1..=31, hour 0..=23,
/// minute 0..=59, second 0..=59.  The year is whatever the local clock shows.
#[verifier::external_body]
fn local_now_fields() -> (r: (i32, u32, u32, u32, u32, u32))
    ensures
        1 <= r.1 <= 12,
        1 <= r.2 <= 31,
        r.3 <= 23,
        r.4 <= 59,
        r.5 <= 59,
{
    let now = chrono::Local::now();
    (now.year(), now.month(), now.day(), now.hour(), now.minute(), now.second())
}

/// Capture the current local wall-clock time, once per measurement cycle;
/// `None` when the clock's year does not render in four digits.
pub fn capture_now() -> (r: Option<Instant>)
    ensures
        r matches Some(i) ==> i.valid(),
{
    let (year, month, day, hour, minute, second) = local_now_fields();
    if 1 <= year && year <= 9999 {
        Some(Instant { year: year as u32, month, day, hour, minute, second })
    } else {
        None
    }
}

} // verus!
