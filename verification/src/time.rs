//! Calendar-to-Julian-day conversion.
//!
//! The renderer needs Greenwich Mean Sidereal Time, which is a function of the
//! Julian date; the whole-day part of that date is pure calendar arithmetic
//! and is computed here. A Julian date at a given UTC instant is
//! `julian_day_number(y, m, d) - 1/2 + seconds_of_day / 86400`, where the
//! fractional part is the caller's concern.

use vstd::prelude::*;

verus! {

/// First full year of the Gregorian calendar, to which the conversion applies.
pub const MIN_YEAR: i64 = 1583;

/// Last year accepted; keeps every intermediate product small.
pub const MAX_YEAR: i64 = 9999;

/// A year/month/day triple this module accepts. Day 31 is allowed in every
/// month: the element-set epochs this is applied to come from a calendar
/// source, and an over-long day would only shift the result into the next
/// month, never out of range.
pub open spec fn valid_civil_date(year: int, month: int, day: int) -> bool {
    &&& MIN_YEAR <= year <= MAX_YEAR
    &&& 1 <= month <= 12
    &&& 1 <= day <= 31
}

/// The Julian day number of a Gregorian calendar date, by the classical
/// algorithm: January and February are counted as months 13 and 14 of the
/// previous year, `b` is the Gregorian leap-century correction, and the two
/// quotients are the exact integer forms of floor(365.25 * (y + 4716)) and
/// floor(30.6001 * (m + 1)).
pub open spec fn spec_julian_day_number(year: int, month: int, day: int) -> int {
    let y = if month <= 2 { year - 1 } else { year };
    let m = if month <= 2 { month + 12 } else { month };
    let a = y / 100;
    let b = 2 - a + a / 4;
    (1461 * (y + 4716)) / 4 + (306001 * (m + 1)) / 10000 + day + b - 1524
}

/// Julian day number of the given Gregorian date: the whole-day part of the
/// Julian date, offset so that the Julian date at 00:00 UTC of this date is
/// the returned number minus one half.
pub fn julian_day_number(year: i64, month: i64, day: i64) -> (jdn: i64)
    requires
        valid_civil_date(year as int, month as int, day as int),
    ensures
        jdn == spec_julian_day_number(year as int, month as int, day as int),
{
    let (y, m): (u64, u64) = if month <= 2 {
        ((year - 1) as u64, (month + 12) as u64)
    } else {
        (year as u64, month as u64)
    };
    let a: u64 = y / 100;
    let term_year: u64 = (1461 * (y + 4716)) / 4;
    let term_month: u64 = (306001 * (m + 1)) / 10000;
    let jdn: u64 = term_year + term_month + (day as u64) + 2 + a / 4 - a - 1524;
    jdn as i64
}

} // verus!
