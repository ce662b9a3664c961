//! Calendar dates for the release request: a plain year/month/day value,
//! validity in the proleptic Gregorian calendar, and strict `YYYY-MM-DD`
//! parsing through `chrono`.

use chrono::Datelike;
use vstd::prelude::*;

verus! {

/// A calendar date, valid in the proleptic Gregorian calendar.
#[derive(Clone, Copy, Debug, PartialEq, Eq, Structural)]
pub struct Date {
    pub year: i32,
    pub month: u8,
    pub day: u8,
}

pub open spec fn is_leap_year(y: int) -> bool {
    (y % 4 == 0 && y % 100 != 0) || y % 400 == 0
}

pub open spec fn days_in_month(y: int, m: int) -> int {
    if m == 2 {
        if is_leap_year(y) {
            29
        } else {
            28
        }
    } else if m == 4 || m == 6 || m == 9 || m == 11 {
        30
    } else {
        31
    }
}

pub open spec fn valid_date(y: int, m: int, d: int) -> bool {
    1 <= m <= 12 && 1 <= d <= days_in_month(y, m)
}

pub open spec fn wf_date(d: Date) -> bool {
    valid_date(d.year as int, d.month as int, d.day as int)
}

pub open spec fn is_digit(c: char) -> bool {
    '0' as int <= c as int <= '9' as int
}

pub open spec fn digit_val(c: char) -> int {
    c as int - '0' as int
}

/// A string of the exact shape `YYYY-MM-DD`: ten characters, digits in the
/// date positions and dashes in between.
pub open spec fn is_canonical_ymd(s: Seq<char>) -> bool {
    &&& s.len() == 10
    &&& is_digit(s[0]) && is_digit(s[1]) && is_digit(s[2]) && is_digit(s[3])
    &&& s[4] == '-'
    &&& is_digit(s[5]) && is_digit(s[6])
    &&& s[7] == '-'
    &&& is_digit(s[8]) && is_digit(s[9])
}

pub open spec fn canonical_year(s: Seq<char>) -> int {
    digit_val(s[0]) * 1000 + digit_val(s[1]) * 100 + digit_val(s[2]) * 10 + digit_val(s[3])
}

pub open spec fn canonical_month(s: Seq<char>) -> int {
    digit_val(s[5]) * 10 + digit_val(s[6])
}

pub open spec fn canonical_day(s: Seq<char>) -> int {
    digit_val(s[8]) * 10 + digit_val(s[9])
}

/// What parsing a canonical `YYYY-MM-DD` string yields: the digit values,
/// if they form a valid calendar date, and nothing otherwise.
pub open spec fn spec_canonical_parse(s: Seq<char>) -> Option<(int, int, int)> {
    if valid_date(canonical_year(s), canonical_month(s), canonical_day(s)) {
        Some((canonical_year(s), canonical_month(s), canonical_day(s)))
    } else {
        None
    }
}

/// The year, month and day that `chrono` reads out of a string under the
/// format `%Y-%m-%d`, or nothing where it refuses the string.
pub uninterp spec fn chrono_parse_ymd(s: Seq<char>) -> Option<(int, int, int)>;

/// Relies on `chrono::NaiveDate::parse_from_str` with the format
/// `"%Y-%m-%d"`: the result is a function of the input string alone; a
/// parsed `NaiveDate` is always a valid proleptic Gregorian date; and on a
/// string of the exact shape `YYYY-MM-DD` the parse succeeds if and only if
/// the digits form a valid calendar date, returning exactly those digits.
#[verifier::external_body]
pub(crate) fn parse_ymd(s: &str) -> (r: Option<Date>)
    ensures
        match r {
            Some(d) => chrono_parse_ymd(s@) == Some(
                (d.year as int, d.month as int, d.day as int),
            ) && wf_date(d),
            None => chrono_parse_ymd(s@) is None,
        },
        is_canonical_ymd(s@) ==> match r {
            Some(d) => spec_canonical_parse(s@) == Some(
                (d.year as int, d.month as int, d.day as int),
            ),
            None => spec_canonical_parse(s@) is None,
        },
{
    match chrono::NaiveDate::parse_from_str(s, "%Y-%m-%d") {
        Ok(d) => Some(Date { year: d.year(), month: d.month() as u8, day: d.day() as u8 }),
        Err(_) => None,
    }
}

} // verus!
