//! The mathematical model of the proleptic Gregorian calendar that the
//! grid calculator's contracts are stated over: leap years, month lengths,
//! the range of dates the date backend can represent, and the day-of-week
//! formula.

use vstd::prelude::*;

verus! {

/// A proleptic Gregorian leap year: divisible by 4, except century years
/// not divisible by 400.
pub open spec fn is_leap_year(y: int) -> bool {
    y % 4 == 0 && (y % 100 != 0 || y % 400 == 0)
}

/// The month number names a real month.
pub open spec fn month_in_range(m: int) -> bool {
    1 <= m <= 12
}

/// The year lies in the range the date backend can represent.
pub open spec fn year_in_range(y: int) -> bool {
    -262143 <= y <= 262142
}

/// The number of days in month m of year y.
pub open spec fn days_in_month(y: int, m: int) -> int
    recommends
        month_in_range(m),
{
    if m == 2 {
        if is_leap_year(y) {
            29
        } else {
            28
        }
    } else if m == 4 || m == 6 || m == 9 || m == 11 {
        30
    } else {
        31
    }
}

/// (y, m, d) names a calendar date the date backend can form.
pub open spec fn valid_ymd(y: int, m: int, d: int) -> bool {
    year_in_range(y) && month_in_range(m) && 1 <= d <= days_in_month(y, m)
}

/// The year holding the month before month m of year y.
pub open spec fn prev_month_year(y: int, m: int) -> int {
    if m == 1 {
        y - 1
    } else {
        y
    }
}

/// The month number of the month before month m.
pub open spec fn prev_month(m: int) -> int {
    if m == 1 {
        12
    } else {
        m - 1
    }
}

/// (y, m) is the earliest representable month: January of the minimum year.
/// Its first day is the one date with no predecessor.
pub open spec fn is_earliest_month(y: int, m: int) -> bool {
    y == -262143 && m == 1
}

/// The date (y, m, 1) can be formed and has a predecessor: it is a valid
/// first-of-month other than the earliest representable date.
pub open spec fn first_has_predecessor(y: int, m: int) -> bool {
    valid_ymd(y, m, 1) && !is_earliest_month(y, m)
}

/// Signed number of days from the reference date, March 1 of year 0
/// (proleptic Gregorian), to (y, m, d). The year is shifted to begin on
/// March 1, so the leap day, when there is one, falls at the end of the
/// shifted year; `(153 * sm + 2) / 5` is the day of the shifted year on
/// which shifted month sm begins.
pub open spec fn days_from_reference(y: int, m: int, d: int) -> int {
    let sy = if m <= 2 {
        y - 1
    } else {
        y
    };
    let sm = if m <= 2 {
        m + 9
    } else {
        m - 3
    };
    365 * sy + sy / 4 - sy / 100 + sy / 400 + (153 * sm + 2) / 5 + d - 1
}

/// Day of week of (y, m, d), indexed 0 = Sunday .. 6 = Saturday. The
/// reference date, March 1 of year 0, is a Wednesday, hence the offset 3.
pub open spec fn weekday_sun0(y: int, m: int, d: int) -> int {
    (days_from_reference(y, m, d) + 3) % 7
}

/// Weekday index (0 = Sunday) of the first day of month m of year y.
pub open spec fn first_weekday(y: int, m: int) -> int {
    weekday_sun0(y, m, 1)
}

} // verus!
