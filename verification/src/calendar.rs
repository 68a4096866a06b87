//! Calendar arithmetic: the Julian Day Number of a Gregorian date.

use vstd::prelude::*;

verus! {

/// Earliest year a calendar date of the time library can carry.
pub const MIN_YEAR: i32 = -262144;
/// Latest year a calendar date of the time library can carry.
pub const MAX_YEAR: i32 = 262143;

/// Integer division rounding toward zero, as machine division does.
pub open spec fn div_toward_zero(a: int, b: int) -> int {
    if a >= 0 {
        a / b
    } else {
        -((-a) / b)
    }
}

/// Julian Day Number of a Gregorian date (the day that starts at noon
/// UTC of that date), by the Fliegel–Van Flandern formula with every
/// division rounded toward zero.
pub open spec fn spec_julian_day_number(year: int, month: int, day: int) -> int {
    let a = (14 - month) / 12;
    let y = year + 4800 - a;
    let m = month + 12 * a - 3;
    day + (153 * m + 2) / 5 + 365 * y + div_toward_zero(y, 4) - div_toward_zero(y, 100)
        + div_toward_zero(y, 400) - 32045
}

/// A date as the time library holds it: month 1–12, day 1–31.
pub open spec fn valid_date_fields(year: int, month: int, day: int) -> bool {
    &&& MIN_YEAR <= year <= MAX_YEAR
    &&& 1 <= month <= 12
    &&& 1 <= day <= 31
}

fn div_i32_toward_zero(a: i32, b: i32) -> (r: i32)
    requires
        b > 0,
        a > i32::MIN,
    ensures
        r == div_toward_zero(a as int, b as int),
{
    if a >= 0 {
        a / b
    } else {
        -((-a) / b)
    }
}

/// The integer part of the Julian day of a UTC date: the Julian Day
/// Number, the day that begins at noon of that date.
pub fn julian_day_number(year: i32, month: u32, day: u32) -> (r: i32)
    requires
        valid_date_fields(year as int, month as int, day as int),
    ensures
        r == spec_julian_day_number(year as int, month as int, day as int),
{
    let month = month as i32;
    let a = (14 - month) / 12;
    let y = year + 4800 - a;
    let m = month + 12 * a - 3;
    assert(0 <= m <= 11);
    assert(y * 365 <= 267000 * 365 && y * 365 >= -258000 * 365) by (nonlinear_arith)
        requires
            -258000 <= y <= 267000,
    ;
    day as i32 + (153 * m + 2) / 5 + 365 * y + div_i32_toward_zero(y, 4) - div_i32_toward_zero(
        y,
        100,
    ) + div_i32_toward_zero(y, 400) - 32045
}

/// Gregorian leap years: divisible by 4, except centuries not divisible
/// by 400.
pub open spec fn is_leap_year(year: int) -> bool {
    year % 4 == 0 && (year % 100 != 0 || year % 400 == 0)
}

/// Number of days of a month.
pub open spec fn days_in_month(year: int, month: int) -> int {
    if month == 2 {
        if is_leap_year(year) {
            29
        } else {
            28
        }
    } else if month == 4 || month == 6 || month == 9 || month == 11 {
        30
    } else {
        31
    }
}

/// Day numbers run on without gaps or repeats across the calendar: the
/// first day of a month follows the last day of the month before, and New
/// Year's Day follows 31 December. Stated for the years from 4799 BC
/// (astronomical year -4799) on, where the formula's divisions are of
/// non-negative numbers.
pub proof fn lemma_days_follow_on(year: int, month: int)
    requires
        year >= -4799,
        1 <= month <= 12,
    ensures
        month < 12 ==> spec_julian_day_number(year, month + 1, 1) == spec_julian_day_number(
            year,
            month,
            days_in_month(year, month),
        ) + 1,
        month == 12 ==> spec_julian_day_number(year + 1, 1, 1) == spec_julian_day_number(
            year,
            12,
            31,
        ) + 1,
{
    let y = year + 4800;
    assert(y >= 1);
    assert((y - 1) / 4 + 1 == y / 4 <==> y % 4 == 0) by {
        vstd::arithmetic::div_mod::lemma_fundamental_div_mod(y, 4);
        vstd::arithmetic::div_mod::lemma_fundamental_div_mod(y - 1, 4);
    }
    assert((y - 1) / 100 + 1 == y / 100 <==> y % 100 == 0) by {
        vstd::arithmetic::div_mod::lemma_fundamental_div_mod(y, 100);
        vstd::arithmetic::div_mod::lemma_fundamental_div_mod(y - 1, 100);
    }
    assert((y - 1) / 400 + 1 == y / 400 <==> y % 400 == 0) by {
        vstd::arithmetic::div_mod::lemma_fundamental_div_mod(y, 400);
        vstd::arithmetic::div_mod::lemma_fundamental_div_mod(y - 1, 400);
    }
    assert((y - 1) / 4 == y / 4 || (y - 1) / 4 + 1 == y / 4) by {
        vstd::arithmetic::div_mod::lemma_fundamental_div_mod(y, 4);
        vstd::arithmetic::div_mod::lemma_fundamental_div_mod(y - 1, 4);
    }
    assert((y - 1) / 100 == y / 100 || (y - 1) / 100 + 1 == y / 100) by {
        vstd::arithmetic::div_mod::lemma_fundamental_div_mod(y, 100);
        vstd::arithmetic::div_mod::lemma_fundamental_div_mod(y - 1, 100);
    }
    assert((y - 1) / 400 == y / 400 || (y - 1) / 400 + 1 == y / 400) by {
        vstd::arithmetic::div_mod::lemma_fundamental_div_mod(y, 400);
        vstd::arithmetic::div_mod::lemma_fundamental_div_mod(y - 1, 400);
    }
    assert(year % 4 == y % 4 && year % 100 == y % 100 && year % 400 == y % 400) by {
        vstd::arithmetic::div_mod::lemma_fundamental_div_mod(y, 4);
        vstd::arithmetic::div_mod::lemma_fundamental_div_mod(year, 4);
        vstd::arithmetic::div_mod::lemma_fundamental_div_mod(y, 100);
        vstd::arithmetic::div_mod::lemma_fundamental_div_mod(year, 100);
        vstd::arithmetic::div_mod::lemma_fundamental_div_mod(y, 400);
        vstd::arithmetic::div_mod::lemma_fundamental_div_mod(year, 400);
    }
}

} // verus!
