use vstd::prelude::*;
use vstd::string::StrSliceExecFns;
use vstd::string::StringExecFns;

verus! {

/// A calendar date of the proleptic Gregorian calendar, in the range the
/// store accepts: years 0 through 9999.
#[derive(Debug, Clone, Copy, PartialEq, Eq, Structural)]
pub struct Date {
    pub year: i64,
    pub month: i64,
    pub day: i64,
}

pub open spec fn spec_is_leap(y: int) -> bool {
    (y % 4 == 0 && y % 100 != 0) || y % 400 == 0
}

pub open spec fn spec_days_in_month(y: int, m: int) -> int {
    if m == 2 {
        if spec_is_leap(y) {
            29
        } else {
            28
        }
    } else if m == 4 || m == 6 || m == 9 || m == 11 {
        30
    } else {
        31
    }
}

pub open spec fn valid_date(d: Date) -> bool {
    &&& 0 <= d.year <= 9999
    &&& 1 <= d.month <= 12
    &&& 1 <= d.day <= spec_days_in_month(d.year as int, d.month as int)
}

/// Days of the year that precede the first day of month `m`.
pub open spec fn spec_days_before_month(m: int, leap: bool) -> int {
    let base: int = if m == 1 {
        0
    } else if m == 2 {
        31
    } else if m == 3 {
        59
    } else if m == 4 {
        90
    } else if m == 5 {
        120
    } else if m == 6 {
        151
    } else if m == 7 {
        181
    } else if m == 8 {
        212
    } else if m == 9 {
        243
    } else if m == 10 {
        273
    } else if m == 11 {
        304
    } else {
        334
    };
    base + if leap && m > 2 {
        1int
    } else {
        0int
    }
}

/// Leap years strictly before year `y` (year 0 itself is a leap year).
pub open spec fn spec_leaps_before(y: int) -> int {
    if y == 0 {
        0
    } else {
        1 + (y - 1) / 4 - (y - 1) / 100 + (y - 1) / 400
    }
}

/// The date's position in a linear count of calendar days, with day 0 at the
/// first of January of year 0.  Consecutive calendar days have consecutive
/// day numbers, which is what the streak metric is defined over.
pub open spec fn spec_day_number(d: Date) -> int {
    365 * d.year + spec_leaps_before(d.year as int)
        + spec_days_before_month(d.month as int, spec_is_leap(d.year as int)) + d.day - 1
}

/// Day number of the first representable date after year 9999.
pub const DAY_NUMBER_LIMIT: i64 = 3652425;

proof fn lemma_leaps_before_bounds(y: int)
    requires
        0 <= y <= 9999,
    ensures
        0 <= spec_leaps_before(y) <= 1 + (y - 1) / 4,
        spec_leaps_before(y) <= 2500,
{
    if y != 0 {
        assert((y - 1) / 100 <= (y - 1) / 4) by (nonlinear_arith)
            requires 0 <= y - 1;
        assert(0 <= (y - 1) / 400) by (nonlinear_arith)
            requires 0 <= y - 1;
        assert((y - 1) / 400 <= (y - 1) / 100) by (nonlinear_arith)
            requires 0 <= y - 1;
        assert((y - 1) / 4 <= 2499) by (nonlinear_arith)
            requires y - 1 <= 9998;
    }
}

pub proof fn lemma_day_number_bounds(d: Date)
    requires
        valid_date(d),
    ensures
        0 <= spec_day_number(d) < DAY_NUMBER_LIMIT as int,
{
    lemma_leaps_before_bounds(d.year as int);
    assert(365 * d.year <= 365 * 9999) by (nonlinear_arith)
        requires d.year <= 9999;
    assert(0 <= 365 * d.year) by (nonlinear_arith)
        requires 0 <= d.year;
}

impl Date {
    /// The day number of this date (see `spec_day_number`).
    pub fn day_number(&self) -> (r: i64)
        requires
            valid_date(*self),
        ensures
            r as int == spec_day_number(*self),
            0 <= r < DAY_NUMBER_LIMIT,
    {
        proof {
            lemma_day_number_bounds(*self);
            lemma_leaps_before_bounds(self.year as int);
        }
        let y = self.year;
        let leaps: i64 = if y == 0 {
            0
        } else {
            let p = (y - 1) as u64;
            (1 + (p / 4) - (p / 100) + (p / 400)) as i64
        };
        let leap = is_leap_year(y);
        let before: i64 = days_before_month(self.month, leap);
        365 * y + leaps + before + self.day - 1
    }

    /// Days since the Monday of this date's week: 0 for Monday, 6 for Sunday.
    pub fn days_from_monday(&self) -> (r: i64)
        requires
            valid_date(*self),
        ensures
            r as int == spec_weekday_from_monday(spec_day_number(*self)),
            0 <= r < 7,
    {
        let dn = self.day_number();
        ((dn as u64 + 5) % 7) as i64
    }
}

/// Monday-based weekday of a day number: 0 for Monday through 6 for Sunday.
pub open spec fn spec_weekday_from_monday(dn: int) -> int {
    (dn + 5) % 7
}

fn is_leap_year(y: i64) -> (r: bool)
    requires
        0 <= y,
    ensures
        r == spec_is_leap(y as int),
{
    let yu = y as u64;
    (yu % 4 == 0 && yu % 100 != 0) || yu % 400 == 0
}

fn days_before_month(m: i64, leap: bool) -> (r: i64)
    requires
        1 <= m <= 12,
    ensures
        r as int == spec_days_before_month(m as int, leap),
{
    let base: i64 = if m == 1 {
        0
    } else if m == 2 {
        31
    } else if m == 3 {
        59
    } else if m == 4 {
        90
    } else if m == 5 {
        120
    } else if m == 6 {
        151
    } else if m == 7 {
        181
    } else if m == 8 {
        212
    } else if m == 9 {
        243
    } else if m == 10 {
        273
    } else if m == 11 {
        304
    } else {
        334
    };
    base + if leap && m > 2 {
        1
    } else {
        0
    }
}

pub open spec fn spec_is_digit(c: char) -> bool {
    48 <= c as int <= 57
}

pub open spec fn spec_digit(c: char) -> int {
    c as int - 48
}

/// The shape a date string must have: ten characters, "DDDD-DD-DD" with D a
/// decimal digit.
pub open spec fn date_shape_ok(s: Seq<char>) -> bool {
    &&& s.len() == 10
    &&& spec_is_digit(s[0])
    &&& spec_is_digit(s[1])
    &&& spec_is_digit(s[2])
    &&& spec_is_digit(s[3])
    &&& s[4] == '-'
    &&& spec_is_digit(s[5])
    &&& spec_is_digit(s[6])
    &&& s[7] == '-'
    &&& spec_is_digit(s[8])
    &&& spec_is_digit(s[9])
}

pub open spec fn spec_year_of(s: Seq<char>) -> int {
    spec_digit(s[0]) * 1000 + spec_digit(s[1]) * 100 + spec_digit(s[2]) * 10 + spec_digit(s[3])
}

pub open spec fn spec_month_of(s: Seq<char>) -> int {
    spec_digit(s[5]) * 10 + spec_digit(s[6])
}

pub open spec fn spec_day_of(s: Seq<char>) -> int {
    spec_digit(s[8]) * 10 + spec_digit(s[9])
}

/// What parsing a "YYYY-MM-DD" string yields: the calendar date it denotes,
/// or nothing when the shape is wrong or the fields are out of range.
pub open spec fn spec_parse_date(s: Seq<char>) -> Option<Date> {
    if date_shape_ok(s) {
        let y = spec_year_of(s);
        let m = spec_month_of(s);
        let d = spec_day_of(s);
        if 1 <= m <= 12 && 1 <= d <= spec_days_in_month(y, m) {
            Some(Date { year: y as i64, month: m as i64, day: d as i64 })
        } else {
            None
        }
    } else {
        None
    }
}

fn digit_at(s: &str, i: usize) -> (r: Option<i64>)
    requires
        i < s@.len(),
    ensures
        match r {
            Some(v) => spec_is_digit(s@[i as int]) && v as int == spec_digit(s@[i as int])
                && 0 <= v <= 9,
            None => !spec_is_digit(s@[i as int]),
        },
{
    let c = s.get_char(i);
    let u = c as u32;
    if 48 <= u && u <= 57 {
        Some((u - 48) as i64)
    } else {
        None
    }
}

/// Parses a "YYYY-MM-DD" calendar date.
pub fn parse_date(s: &str) -> (r: Option<Date>)
    ensures
        r == spec_parse_date(s@),
        r matches Some(d) ==> valid_date(d),
{
    if s.unicode_len() != 10 {
        return None;
    }
    let d0 = digit_at(s, 0);
    let d1 = digit_at(s, 1);
    let d2 = digit_at(s, 2);
    let d3 = digit_at(s, 3);
    let d5 = digit_at(s, 5);
    let d6 = digit_at(s, 6);
    let d8 = digit_at(s, 8);
    let d9 = digit_at(s, 9);
    if s.get_char(4) != '-' || s.get_char(7) != '-' {
        return None;
    }
    match (d0, d1, d2, d3, d5, d6, d8, d9) {
        (Some(y0), Some(y1), Some(y2), Some(y3), Some(m0), Some(m1), Some(a0), Some(a1)) => {
            let y = y0 * 1000 + y1 * 100 + y2 * 10 + y3;
            let m = m0 * 10 + m1;
            let d = a0 * 10 + a1;
            if 1 <= m && m <= 12 && 1 <= d && d <= days_in_month(y, m) {
                Some(Date { year: y, month: m, day: d })
            } else {
                None
            }
        },
        _ => None,
    }
}

fn days_in_month(y: i64, m: i64) -> (r: i64)
    requires
        0 <= y,
        1 <= m <= 12,
    ensures
        r as int == spec_days_in_month(y as int, m as int),
{
    if m == 2 {
        if is_leap_year(y) {
            29
        } else {
            28
        }
    } else if m == 4 || m == 6 || m == 9 || m == 11 {
        30
    } else {
        31
    }
}

pub open spec fn spec_digit_char(v: int) -> char {
    if v == 0 {
        '0'
    } else if v == 1 {
        '1'
    } else if v == 2 {
        '2'
    } else if v == 3 {
        '3'
    } else if v == 4 {
        '4'
    } else if v == 5 {
        '5'
    } else if v == 6 {
        '6'
    } else if v == 7 {
        '7'
    } else if v == 8 {
        '8'
    } else {
        '9'
    }
}

/// The "YYYY-MM-DD" rendering of a date.
pub open spec fn spec_format_date(d: Date) -> Seq<char> {
    let y = d.year as int;
    let m = d.month as int;
    let dd = d.day as int;
    seq![
        spec_digit_char(y / 1000),
        spec_digit_char((y / 100) % 10),
        spec_digit_char((y / 10) % 10),
        spec_digit_char(y % 10),
        '-',
        spec_digit_char(m / 10),
        spec_digit_char(m % 10),
        '-',
        spec_digit_char(dd / 10),
        spec_digit_char(dd % 10),
    ]
}

fn digit_str(v: u64) -> (r: &'static str)
    requires
        v <= 9,
    ensures
        r@ =~= seq![spec_digit_char(v as int)],
{
    proof {
        reveal_strlit("0");
        reveal_strlit("1");
        reveal_strlit("2");
        reveal_strlit("3");
        reveal_strlit("4");
        reveal_strlit("5");
        reveal_strlit("6");
        reveal_strlit("7");
        reveal_strlit("8");
        reveal_strlit("9");
    }
    match v {
        0 => "0",
        1 => "1",
        2 => "2",
        3 => "3",
        4 => "4",
        5 => "5",
        6 => "6",
        7 => "7",
        8 => "8",
        _ => "9",
    }
}

/// Renders a date as "YYYY-MM-DD".
pub fn format_date(d: &Date) -> (r: String)
    requires
        valid_date(*d),
    ensures
        r@ == spec_format_date(*d),
{
    proof {
        reveal_strlit("-");
    }
    let y = d.year as u64;
    let m = d.month as u64;
    let dd = d.day as u64;
    let mut s = String::new();
    s.append(digit_str(y / 1000));
    s.append(digit_str((y / 100) % 10));
    s.append(digit_str((y / 10) % 10));
    s.append(digit_str(y % 10));
    s.append("-");
    s.append(digit_str(m / 10));
    s.append(digit_str(m % 10));
    s.append("-");
    s.append(digit_str(dd / 10));
    s.append(digit_str(dd % 10));
    proof {
        assert(s@ =~= spec_format_date(*d));
    }
    s
}

proof fn lemma_digit_char_round_trip(v: int)
    requires
        0 <= v <= 9,
    ensures
        spec_is_digit(spec_digit_char(v)),
        spec_digit(spec_digit_char(v)) == v,
{
}

/// Splitting a number in [0, 9999] into its four decimal digits and reading
/// them back yields the number.
proof fn lemma_four_digits(y: int)
    requires
        0 <= y <= 9999,
    ensures
        1000 * (y / 1000) + 100 * ((y / 100) % 10) + 10 * ((y / 10) % 10) + (y % 10) == y,
        0 <= y / 1000 <= 9,
        0 <= (y / 100) % 10 <= 9,
        0 <= (y / 10) % 10 <= 9,
        0 <= y % 10 <= 9,
{
    vstd::arithmetic::div_mod::lemma_fundamental_div_mod(y, 10);
    vstd::arithmetic::div_mod::lemma_fundamental_div_mod(y / 10, 10);
    vstd::arithmetic::div_mod::lemma_fundamental_div_mod(y / 100, 10);
    vstd::arithmetic::div_mod::lemma_div_denominator(y, 10, 10);
    vstd::arithmetic::div_mod::lemma_div_denominator(y, 100, 10);
    assert(y / 10 / 10 == y / 100);
    assert(y / 100 / 10 == y / 1000);
    assert((y / 10) % 10 == y / 10 - 10 * (y / 100));
    assert((y / 100) % 10 == y / 100 - 10 * (y / 1000));
    assert(y % 10 == y - 10 * (y / 10));
    assert(0 <= y / 1000 <= 9) by (nonlinear_arith)
        requires 0 <= y <= 9999;
    assert(0 <= y % 10 <= 9) by (nonlinear_arith)
        requires 0 <= y;
    assert(0 <= (y / 10) % 10 <= 9) by (nonlinear_arith);
    assert(0 <= (y / 100) % 10 <= 9) by (nonlinear_arith);
}

/// Splitting a number in [0, 99] into two decimal digits and reading them
/// back yields the number.
proof fn lemma_two_digits(v: int)
    requires
        0 <= v <= 99,
    ensures
        10 * (v / 10) + (v % 10) == v,
        0 <= v / 10 <= 9,
        0 <= v % 10 <= 9,
{
    vstd::arithmetic::div_mod::lemma_fundamental_div_mod(v, 10);
    assert(0 <= v / 10 <= 9) by (nonlinear_arith)
        requires 0 <= v <= 99;
    assert(0 <= v % 10 <= 9) by (nonlinear_arith)
        requires 0 <= v;
}

/// Rendering a valid date and parsing the rendering yields the date back; in
/// particular a rendered date always parses.
pub proof fn lemma_parse_format_date(d: Date)
    requires
        valid_date(d),
    ensures
        spec_parse_date(spec_format_date(d)) == Some(d),
{
    let s = spec_format_date(d);
    let y = d.year as int;
    let m = d.month as int;
    let dd = d.day as int;
    lemma_four_digits(y);
    lemma_two_digits(m);
    lemma_two_digits(dd);
    lemma_digit_char_round_trip(y / 1000);
    lemma_digit_char_round_trip((y / 100) % 10);
    lemma_digit_char_round_trip((y / 10) % 10);
    lemma_digit_char_round_trip(y % 10);
    lemma_digit_char_round_trip(m / 10);
    lemma_digit_char_round_trip(m % 10);
    lemma_digit_char_round_trip(dd / 10);
    lemma_digit_char_round_trip(dd % 10);
    assert(date_shape_ok(s));
    assert(spec_year_of(s) == y);
    assert(spec_month_of(s) == m);
    assert(spec_day_of(s) == dd);
}

/// A habit-log date must parse as a calendar date; otherwise it is replaced
/// with the current date, which the caller supplies.
pub fn normalize_habit_date(date: String, today: &Date) -> (r: String)
    requires
        valid_date(*today),
    ensures
        r@ == spec_normalize_habit_date(date@, *today),
        spec_parse_date(r@) is Some,
{
    proof {
        lemma_parse_format_date(*today);
    }
    if parse_date(date.as_str()).is_some() {
        date
    } else {
        format_date(today)
    }
}

pub open spec fn spec_normalize_habit_date(s: Seq<char>, today: Date) -> Seq<char> {
    if spec_parse_date(s) is Some {
        s
    } else {
        spec_format_date(today)
    }
}

/// A normalized habit date always parses.
pub proof fn lemma_normalized_date_parses(s: Seq<char>, today: Date)
    requires
        valid_date(today),
    ensures
        spec_parse_date(spec_normalize_habit_date(s, today)) is Some,
{
    lemma_parse_format_date(today);
}

} // verus!
