//! Calendar dates as plain values.
//!
//! The ledger reports transaction dates as `YYYY-MM-DD` strings and the
//! reconciliation rules only ever inspect the day of month, so a date is
//! held as its year, month and day. The parser validates fully, leap
//! years included; the current date comes from the system clock through
//! a trusted wrapper.

use chrono::Datelike;
use vstd::prelude::*;

verus! {

/// A calendar date. `month` runs from 1 to 12 and `day` from 1, as on a
/// calendar; `valid` says that the combination exists.
#[derive(Clone, Copy, PartialEq, Eq, Structural, Debug)]
pub struct Date {
    pub year: u16,
    pub month: u8,
    pub day: u8,
}

pub open spec fn spec_is_leap_year(y: int) -> bool {
    (y % 4 == 0 && y % 100 != 0) || y % 400 == 0
}

pub open spec fn spec_days_in_month(y: int, m: int) -> int {
    if m == 2 {
        if spec_is_leap_year(y) {
            29
        } else {
            28
        }
    } else if m == 4 || m == 6 || m == 9 || m == 11 {
        30
    } else {
        31
    }
}

impl Date {
    /// The month and day ranges hold and the day exists in that month of
    /// that year.
    pub open spec fn valid(self) -> bool {
        &&& 1 <= self.month <= 12
        &&& 1 <= self.day <= spec_days_in_month(self.year as int, self.month as int)
    }

    /// The loose bound that the system clock's date is known to meet.
    pub open spec fn plausible(self) -> bool {
        &&& 1 <= self.month <= 12
        &&& 1 <= self.day <= 31
    }
}

pub fn is_leap_year(y: u16) -> (r: bool)
    ensures
        r == spec_is_leap_year(y as int),
{
    (y % 4 == 0 && y % 100 != 0) || y % 400 == 0
}

pub fn days_in_month(y: u16, m: u8) -> (d: u8)
    requires
        1 <= m <= 12,
    ensures
        d == spec_days_in_month(y as int, m as int),
{
    if m == 2 {
        if is_leap_year(y) {
            29
        } else {
            28
        }
    } else if m == 4 || m == 6 || m == 9 || m == 11 {
        30
    } else {
        31
    }
}

/// `b` is the byte of a decimal digit.
pub open spec fn spec_is_digit(b: u8) -> bool {
    48 <= b <= 57
}

/// The value of a decimal digit byte.
pub open spec fn spec_digit(b: u8) -> int {
    b - 48
}

/// The shape of a `YYYY-MM-DD` string, as bytes: ten bytes, dashes at
/// positions four and seven, digits everywhere else.
pub open spec fn spec_is_date_shape(s: Seq<u8>) -> bool {
    &&& s.len() == 10
    &&& spec_is_digit(s[0])
    &&& spec_is_digit(s[1])
    &&& spec_is_digit(s[2])
    &&& spec_is_digit(s[3])
    &&& s[4] == 45
    &&& spec_is_digit(s[5])
    &&& spec_is_digit(s[6])
    &&& s[7] == 45
    &&& spec_is_digit(s[8])
    &&& spec_is_digit(s[9])
}

/// The date a well-shaped `YYYY-MM-DD` string denotes.
pub open spec fn spec_date_of(s: Seq<u8>) -> Date {
    Date {
        year: (spec_digit(s[0]) * 1000 + spec_digit(s[1]) * 100 + spec_digit(s[2]) * 10 + spec_digit(
            s[3],
        )) as u16,
        month: (spec_digit(s[5]) * 10 + spec_digit(s[6])) as u8,
        day: (spec_digit(s[8]) * 10 + spec_digit(s[9])) as u8,
    }
}

/// A `YYYY-MM-DD` string parses exactly when it has the digit/dash shape
/// and denotes a date that exists on the calendar.
pub open spec fn spec_parse_date(s: Seq<u8>) -> Option<Date> {
    if spec_is_date_shape(s) && spec_date_of(s).valid() {
        Some(spec_date_of(s))
    } else {
        None
    }
}

fn parse_digit(b: u8) -> (r: Option<u8>)
    ensures
        r is Some <==> spec_is_digit(b),
        r is Some ==> r->0 == spec_digit(b),
{
    if 48 <= b && b <= 57 {
        Some(b - 48)
    } else {
        None
    }
}

/// Parse a `YYYY-MM-DD` byte string into a calendar-valid date.
pub fn parse_date(s: &[u8]) -> (r: Option<Date>)
    ensures
        r == spec_parse_date(s@),
{
    if s.len() != 10 {
        return None;
    }
    if s[4] != 45 || s[7] != 45 {
        return None;
    }
    let (y0, y1, y2, y3) = match (parse_digit(s[0]), parse_digit(s[1]), parse_digit(s[2]), parse_digit(
        s[3],
    )) {
        (Some(a), Some(b), Some(c), Some(d)) => (a, b, c, d),
        _ => { return None },
    };
    let (m0, m1) = match (parse_digit(s[5]), parse_digit(s[6])) {
        (Some(a), Some(b)) => (a, b),
        _ => { return None },
    };
    let (d0, d1) = match (parse_digit(s[8]), parse_digit(s[9])) {
        (Some(a), Some(b)) => (a, b),
        _ => { return None },
    };
    let year: u16 = y0 as u16 * 1000 + y1 as u16 * 100 + y2 as u16 * 10 + y3 as u16;
    let month: u8 = m0 * 10 + m1;
    let day: u8 = d0 * 10 + d1;
    if month < 1 || month > 12 {
        return None;
    }
    if day < 1 || day > days_in_month(year, month) {
        return None;
    }
    Some(Date { year, month, day })
}

/// Relies on chrono: `Local::now().date_naive()` is the current calendar
/// date, whose `month()` lies in 1..=12 and `day()` in 1..=31.
#[verifier::external_body]
pub fn current_date() -> (d: Date)
    ensures
        d.plausible(),
{
    let now = chrono::Local::now().date_naive();
    Date { year: now.year() as u16, month: now.month() as u8, day: now.day() as u8 }
}

} // verus!
