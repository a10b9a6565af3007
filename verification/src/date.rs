//! Calendar dates in the proleptic Gregorian calendar, as plain
//! year/month/day triples, together with the ordering, arithmetic and
//! `YYYY-MM-DD` text form that the query validator works with.

use vstd::prelude::*;
use crate::error::Error;

verus! {

/// A calendar date: year, month (1..=12) and day of month.
#[derive(Clone, Copy, PartialEq, Eq, Structural, Debug)]
pub struct Date {
    pub year: u16,
    pub month: u8,
    pub day: u8,
}

/// A leap year in the Gregorian calendar.
pub open spec fn is_leap_year(y: int) -> bool {
    y % 4 == 0 && (y % 100 != 0 || y % 400 == 0)
}

/// Number of days in a month of a given year.
pub open spec fn days_in_month(y: int, m: int) -> int {
    if m == 2 {
        if is_leap_year(y) {
            29
        } else {
            28
        }
    } else if m == 4 || m == 6 || m == 9 || m == 11 {
        30
    } else {
        31
    }
}

/// The triple names a real calendar date.
pub open spec fn valid_ymd(y: int, m: int, d: int) -> bool {
    1 <= m <= 12 && 1 <= d <= days_in_month(y, m)
}

/// The `Date` value names a real calendar date.
pub open spec fn date_valid(d: Date) -> bool {
    valid_ymd(d.year as int, d.month as int, d.day as int)
}

/// A real calendar date whose year fits the four-digit `YYYY-MM-DD` form.
pub open spec fn date_in_range(d: Date) -> bool {
    date_valid(d) && d.year <= 9999
}

/// Chronological order on valid dates (lexicographic on year, month, day).
pub open spec fn date_le_spec(a: Date, b: Date) -> bool {
    a.year < b.year || (a.year == b.year && (a.month < b.month || (a.month == b.month
        && a.day <= b.day)))
}

/// Strict chronological order.
pub open spec fn date_lt_spec(a: Date, b: Date) -> bool {
    date_le_spec(a, b) && a != b
}

/// The day after `d`.
pub open spec fn next_day_spec(d: Date) -> Date {
    if (d.day as int) < days_in_month(d.year as int, d.month as int) {
        Date { year: d.year, month: d.month, day: (d.day + 1) as u8 }
    } else if d.month < 12 {
        Date { year: d.year, month: (d.month + 1) as u8, day: 1 }
    } else {
        Date { year: (d.year + 1) as u16, month: 1, day: 1 }
    }
}

/// The date `n` days after `d`.
pub open spec fn plus_days_spec(d: Date, n: nat) -> Date
    decreases n,
{
    if n == 0 {
        d
    } else {
        next_day_spec(plus_days_spec(d, (n - 1) as nat))
    }
}

/// True of a year divisible by 4 except for century years off the 400 grid.
pub fn leap_year(y: u16) -> (r: bool)
    ensures
        r == is_leap_year(y as int),
{
    y % 4 == 0 && (y % 100 != 0 || y % 400 == 0)
}

/// Length of month `m` of year `y`.
pub fn month_len(y: u16, m: u8) -> (r: u8)
    requires
        1 <= m <= 12,
    ensures
        r as int == days_in_month(y as int, m as int),
{
    if m == 2 {
        if leap_year(y) {
            29
        } else {
            28
        }
    } else if m == 4 || m == 6 || m == 9 || m == 11 {
        30
    } else {
        31
    }
}

/// The day after `d`.
pub fn next_day(d: Date) -> (r: Date)
    requires
        date_valid(d),
        d.year < 65535,
    ensures
        r == next_day_spec(d),
        date_valid(r),
        r.year <= d.year + 1,
{
    let ml = month_len(d.year, d.month);
    if d.day < ml {
        Date { year: d.year, month: d.month, day: d.day + 1 }
    } else if d.month < 12 {
        Date { year: d.year, month: d.month + 1, day: 1 }
    } else {
        Date { year: d.year + 1, month: 1, day: 1 }
    }
}

/// The date `n` days after `d`, for spans of at most a year.
pub fn add_days(d: Date, n: u16) -> (r: Date)
    requires
        date_valid(d),
        n <= 366,
        d.year <= 60000,
    ensures
        r == plus_days_spec(d, n as nat),
        date_valid(r),
        r.year <= d.year + n,
{
    let mut cur = d;
    let mut i: u16 = 0;
    while i < n
        invariant
            i <= n,
            n <= 366,
            d.year <= 60000,
            cur == plus_days_spec(d, i as nat),
            date_valid(cur),
            cur.year <= d.year + i,
        decreases n - i,
    {
        cur = next_day(cur);
        i = i + 1;
    }
    cur
}

/// Packs a year/month/day triple into a `Date` exactly when the year
/// fits the four-digit `YYYY-MM-DD` form, and into `None` otherwise.
pub fn date_from_ymd(y: i32, m: u32, d: u32) -> (r: Option<Date>)
    requires
        valid_ymd(y as int, m as int, d as int),
    ensures
        0 <= y <= 9999 ==> r == Some(Date { year: y as u16, month: m as u8, day: d as u8 }),
        !(0 <= y <= 9999) ==> r is None,
        r matches Some(date) ==> date_in_range(date),
{
    if 0 <= y && y <= 9999 {
        Some(Date { year: y as u16, month: m as u8, day: d as u8 })
    } else {
        None
    }
}

/// Whether `a` is on or before `b`.
pub fn date_le(a: Date, b: Date) -> (r: bool)
    ensures
        r == date_le_spec(a, b),
{
    a.year < b.year || (a.year == b.year && (a.month < b.month || (a.month == b.month
        && a.day <= b.day)))
}

/// The decimal digit character for `n` in 0..=9 (and '9' off that range,
/// keeping the function total).
pub open spec fn digit_char(n: int) -> char {
    if n == 0 {
        '0'
    } else if n == 1 {
        '1'
    } else if n == 2 {
        '2'
    } else if n == 3 {
        '3'
    } else if n == 4 {
        '4'
    } else if n == 5 {
        '5'
    } else if n == 6 {
        '6'
    } else if n == 7 {
        '7'
    } else if n == 8 {
        '8'
    } else {
        '9'
    }
}

/// Whether `c` is a decimal digit.
pub open spec fn is_digit(c: char) -> bool {
    '0' as int <= c as int <= '9' as int
}

/// The numeric value of a digit character.
pub open spec fn digit_val(c: char) -> int {
    c as int - '0' as int
}

/// `n` zero-padded to two decimal digits (of its low two digits).
pub open spec fn two_digits(n: int) -> Seq<char> {
    seq![digit_char((n / 10) % 10), digit_char(n % 10)]
}

/// `n` zero-padded to four decimal digits (of its low four digits).
pub open spec fn four_digits(n: int) -> Seq<char> {
    seq![
        digit_char((n / 1000) % 10),
        digit_char((n / 100) % 10),
        digit_char((n / 10) % 10),
        digit_char(n % 10),
    ]
}

/// The `YYYY-MM-DD` text form of a date.
pub open spec fn date_seq(d: Date) -> Seq<char> {
    four_digits(d.year as int) + seq!['-'] + two_digits(d.month as int) + seq!['-'] + two_digits(
        d.day as int,
    )
}

/// The plain decimal form of a nonnegative number, without padding.
pub open spec fn dec_seq(n: int) -> Seq<char>
    decreases n,
{
    if n < 10 {
        seq![digit_char(n % 10)]
    } else {
        dec_seq(n / 10) + seq![digit_char(n % 10)]
    }
}

/// The one-character string for digit `n`.
fn digit_str(n: u8) -> (r: &'static str)
    ensures
        r@ == seq![digit_char(n as int)],
{
    proof {
        reveal_strlit("0");
        reveal_strlit("1");
        reveal_strlit("2");
        reveal_strlit("3");
        reveal_strlit("4");
        reveal_strlit("5");
        reveal_strlit("6");
        reveal_strlit("7");
        reveal_strlit("8");
        reveal_strlit("9");
    }
    let r = if n == 0 {
        "0"
    } else if n == 1 {
        "1"
    } else if n == 2 {
        "2"
    } else if n == 3 {
        "3"
    } else if n == 4 {
        "4"
    } else if n == 5 {
        "5"
    } else if n == 6 {
        "6"
    } else if n == 7 {
        "7"
    } else if n == 8 {
        "8"
    } else {
        "9"
    };
    proof {
        assert(r@ =~= seq![digit_char(n as int)]);
    }
    r
}

/// Renders `d` in `YYYY-MM-DD` form.
pub fn date_to_string(d: Date) -> (r: String)
    ensures
        r@ == date_seq(d),
{
    let mut s = String::new();
    s.append(digit_str(((d.year / 1000) % 10) as u8));
    s.append(digit_str(((d.year / 100) % 10) as u8));
    s.append(digit_str(((d.year / 10) % 10) as u8));
    s.append(digit_str((d.year % 10) as u8));
    s.append("-");
    s.append(digit_str((d.month / 10) % 10));
    s.append(digit_str(d.month % 10));
    s.append("-");
    s.append(digit_str((d.day / 10) % 10));
    s.append(digit_str(d.day % 10));
    proof {
        reveal_strlit("-");
        assert(s@ =~= date_seq(d));
    }
    s
}

/// Renders `n` in plain decimal form.
pub fn u8_to_string(n: u8) -> (r: String)
    ensures
        r@ == dec_seq(n as int),
{
    if n < 10 {
        String::from_str(digit_str(n))
    } else if n < 100 {
        let mut s = String::from_str(digit_str(n / 10));
        s.append(digit_str(n % 10));
        proof {
            assert(dec_seq(n as int) == dec_seq(n as int / 10) + seq![digit_char(n as int % 10)]);
            assert(dec_seq(n as int / 10) == seq![digit_char((n as int / 10) % 10)]);
            assert(s@ =~= dec_seq(n as int));
        }
        s
    } else {
        let mut s = String::from_str(digit_str(n / 100));
        s.append(digit_str((n / 10) % 10));
        s.append(digit_str(n % 10));
        proof {
            assert(dec_seq(n as int) == dec_seq(n as int / 10) + seq![digit_char(n as int % 10)]);
            assert(dec_seq(n as int / 10) == dec_seq(n as int / 100) + seq![
                digit_char((n as int / 10) % 10),
            ]);
            assert(s@ =~= dec_seq(n as int));
        }
        s
    }
}

/// The value of a digit character, or `None` for any other character.
fn digit_value(c: char) -> (r: Option<u8>)
    ensures
        match r {
            Some(v) => is_digit(c) && v as int == digit_val(c) && v < 10,
            None => !is_digit(c),
        },
{
    let u = c as u32;
    if 48 <= u && u <= 57 {
        Some((u - 48) as u8)
    } else {
        None
    }
}

/// Whether the text is a well-formed `YYYY-MM-DD` string: ten characters,
/// digits in the year, month and day positions, dashes between.
pub open spec fn date_text_wf(s: Seq<char>) -> bool {
    s.len() == 10 && is_digit(s[0]) && is_digit(s[1]) && is_digit(s[2]) && is_digit(s[3]) && s[4]
        == '-' && is_digit(s[5]) && is_digit(s[6]) && s[7] == '-' && is_digit(s[8]) && is_digit(
        s[9],
    )
}

/// The year named by a well-formed date string.
pub open spec fn year_of(s: Seq<char>) -> int {
    digit_val(s[0]) * 1000 + digit_val(s[1]) * 100 + digit_val(s[2]) * 10 + digit_val(s[3])
}

/// The month named by a well-formed date string.
pub open spec fn month_of(s: Seq<char>) -> int {
    digit_val(s[5]) * 10 + digit_val(s[6])
}

/// The day named by a well-formed date string.
pub open spec fn day_of(s: Seq<char>) -> int {
    digit_val(s[8]) * 10 + digit_val(s[9])
}

/// What parsing a date string yields: the named date when the text is
/// well-formed `YYYY-MM-DD` and names a real calendar date, else nothing.
pub open spec fn parse_date_spec(s: Seq<char>) -> Option<Date> {
    if date_text_wf(s) && valid_ymd(year_of(s), month_of(s), day_of(s)) {
        Some(Date { year: year_of(s) as u16, month: month_of(s) as u8, day: day_of(s) as u8 })
    } else {
        None
    }
}

/// A date strictly precedes its successor day.
pub proof fn lemma_next_day_gt(d: Date)
    requires
        date_valid(d),
        d.year < 65535,
    ensures
        date_lt_spec(d, next_day_spec(d)),
        date_valid(next_day_spec(d)),
        next_day_spec(d).year <= d.year + 1,
{
}

/// Moving `n` days forward stays a valid date, never moves back, moves
/// strictly forward when `n > 0`, and raises the year by at most `n`.
pub proof fn lemma_plus_days(d: Date, n: nat)
    requires
        date_valid(d),
        d.year + n < 65535,
    ensures
        date_valid(plus_days_spec(d, n)),
        date_le_spec(d, plus_days_spec(d, n)),
        n > 0 ==> date_lt_spec(d, plus_days_spec(d, n)),
        plus_days_spec(d, n).year <= d.year + n,
    decreases n,
{
    if n > 0 {
        lemma_plus_days(d, (n - 1) as nat);
        lemma_next_day_gt(plus_days_spec(d, (n - 1) as nat));
    }
}

/// Each digit character is a digit and carries its value.
proof fn lemma_digit_char_val(k: int)
    requires
        0 <= k <= 9,
    ensures
        is_digit(digit_char(k)),
        digit_val(digit_char(k)) == k,
{
    assert('0' as int == 48 && '1' as int == 49 && '2' as int == 50 && '3' as int == 51 && '4'
        as int == 52 && '5' as int == 53 && '6' as int == 54 && '7' as int == 55 && '8' as int
        == 56 && '9' as int == 57);
}

/// A number below 10000 is recovered from its four decimal digits.
proof fn lemma_four_digit_decomp(y: int)
    requires
        0 <= y <= 9999,
    ensures
        ((y / 1000) % 10) * 1000 + ((y / 100) % 10) * 100 + ((y / 10) % 10) * 10 + y % 10 == y,
{
    vstd::arithmetic::div_mod::lemma_fundamental_div_mod(y, 10);
    vstd::arithmetic::div_mod::lemma_fundamental_div_mod(y / 10, 10);
    vstd::arithmetic::div_mod::lemma_fundamental_div_mod(y / 100, 10);
    vstd::arithmetic::div_mod::lemma_div_denominator(y, 10, 10);
    vstd::arithmetic::div_mod::lemma_div_denominator(y / 10, 10, 10);
    vstd::arithmetic::div_mod::lemma_div_denominator(y, 10, 100);
    assert((y / 10) / 10 == y / 100);
    assert((y / 100) / 10 == y / 1000);
    vstd::arithmetic::div_mod::lemma_small_mod((y / 1000) as nat, 10);
}

/// A number below 100 is recovered from its two decimal digits.
proof fn lemma_two_digit_decomp(m: int)
    requires
        0 <= m <= 99,
    ensures
        ((m / 10) % 10) * 10 + m % 10 == m,
{
    vstd::arithmetic::div_mod::lemma_fundamental_div_mod(m, 10);
    vstd::arithmetic::div_mod::lemma_small_mod((m / 10) as nat, 10);
}

/// Rendering a date and parsing the text gives the date back.
#[verifier::rlimit(50)]
pub proof fn lemma_date_seq_parse(d: Date)
    requires
        date_in_range(d),
    ensures
        parse_date_spec(date_seq(d)) == Some(d),
{
    let s = date_seq(d);
    let y = d.year as int;
    let m = d.month as int;
    let dy = d.day as int;
    assert(s.len() == 10);
    assert(s[0] == digit_char((y / 1000) % 10));
    assert(s[1] == digit_char((y / 100) % 10));
    assert(s[2] == digit_char((y / 10) % 10));
    assert(s[3] == digit_char(y % 10));
    assert(s[4] == '-');
    assert(s[5] == digit_char((m / 10) % 10));
    assert(s[6] == digit_char(m % 10));
    assert(s[7] == '-');
    assert(s[8] == digit_char((dy / 10) % 10));
    assert(s[9] == digit_char(dy % 10));
    lemma_digit_char_val((y / 1000) % 10);
    lemma_digit_char_val((y / 100) % 10);
    lemma_digit_char_val((y / 10) % 10);
    lemma_digit_char_val(y % 10);
    lemma_digit_char_val((m / 10) % 10);
    lemma_digit_char_val(m % 10);
    lemma_digit_char_val((dy / 10) % 10);
    lemma_digit_char_val(dy % 10);
    assert(date_text_wf(s));
    lemma_four_digit_decomp(y);
    assert(year_of(s) == y);
    lemma_two_digit_decomp(m);
    assert(month_of(s) == m);
    lemma_two_digit_decomp(dy);
    assert(day_of(s) == dy);
    assert(valid_ymd(year_of(s), month_of(s), day_of(s)));
    assert(parse_date_spec(s) == Some(d));
}

/// Parses a `YYYY-MM-DD` date string, rejecting any other shape and any
/// triple that is not a real calendar date.
pub fn parse_date(s: &str) -> (r: Result<Date, Error>)
    ensures
        match r {
            Ok(d) => parse_date_spec(s@) == Some(d) && date_in_range(d),
            Err(e) => parse_date_spec(s@) is None && e@ is InvalidDate,
        },
{
    let n = s.unicode_len();
    if n != 10 {
        return Err(Error::InvalidDate);
    }
    let d0 = match digit_value(s.get_char(0)) {
        Some(v) => v,
        None => { return Err(Error::InvalidDate); },
    };
    let d1 = match digit_value(s.get_char(1)) {
        Some(v) => v,
        None => { return Err(Error::InvalidDate); },
    };
    let d2 = match digit_value(s.get_char(2)) {
        Some(v) => v,
        None => { return Err(Error::InvalidDate); },
    };
    let d3 = match digit_value(s.get_char(3)) {
        Some(v) => v,
        None => { return Err(Error::InvalidDate); },
    };
    if s.get_char(4) != '-' {
        return Err(Error::InvalidDate);
    }
    let d5 = match digit_value(s.get_char(5)) {
        Some(v) => v,
        None => { return Err(Error::InvalidDate); },
    };
    let d6 = match digit_value(s.get_char(6)) {
        Some(v) => v,
        None => { return Err(Error::InvalidDate); },
    };
    if s.get_char(7) != '-' {
        return Err(Error::InvalidDate);
    }
    let d8 = match digit_value(s.get_char(8)) {
        Some(v) => v,
        None => { return Err(Error::InvalidDate); },
    };
    let d9 = match digit_value(s.get_char(9)) {
        Some(v) => v,
        None => { return Err(Error::InvalidDate); },
    };
    let year: u16 = d0 as u16 * 1000 + d1 as u16 * 100 + d2 as u16 * 10 + d3 as u16;
    let month: u8 = d5 * 10 + d6;
    let day: u8 = d8 * 10 + d9;
    if month < 1 || month > 12 {
        return Err(Error::InvalidDate);
    }
    if day < 1 || day > month_len(year, month) {
        return Err(Error::InvalidDate);
    }
    Ok(Date { year, month, day })
}

} // verus!
