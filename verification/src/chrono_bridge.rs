//! The two calls the calculator makes into the chrono crate, each behind a
//! trusted wrapper whose contract states, over the model in `datemath`,
//! what chrono's source and documentation show of the call.

use vstd::prelude::*;
use chrono::Datelike;
use crate::datemath::{
    days_in_month, first_has_predecessor, first_weekday, prev_month, prev_month_year, valid_ymd,
};

verus! {

/// Relies on chrono's `NaiveDate::from_ymd_opt`, `NaiveDate::weekday` and
/// `Weekday::num_days_from_sunday`: `from_ymd_opt` returns `Some` exactly
/// when the month is 1..=12, the day exists in that month, and the year is
/// within the representable range; `weekday` is the proleptic Gregorian day
/// of week of the date, and `num_days_from_sunday` indexes it
/// 0 = Sunday .. 6 = Saturday.
#[verifier::external_body]
pub(crate) fn weekday_of_first(year: i32, month: u32) -> (r: Option<u8>)
    ensures
        r is Some <==> valid_ymd(year as int, month as int, 1),
        r matches Some(w) ==> w == first_weekday(year as int, month as int),
{
    match chrono::NaiveDate::from_ymd_opt(year, month, 1) {
        Some(d) => Some(d.weekday().num_days_from_sunday() as u8),
        None => None,
    }
}

/// Relies on chrono's `NaiveDate::from_ymd_opt` (as above), on
/// `NaiveDate::pred_opt`, which steps back one calendar day and returns
/// `None` only on the earliest representable date, and on `Datelike::day`,
/// the 1-based day of the month. The day before the first of a month is the
/// last day of the month before it, so its `day` is that month's length.
#[verifier::external_body]
pub(crate) fn day_before_first(year: i32, month: u32) -> (r: Option<u8>)
    ensures
        r is Some <==> first_has_predecessor(year as int, month as int),
        r matches Some(d) ==> d == days_in_month(prev_month_year(year as int, month as int), prev_month(month as int)),
{
    match chrono::NaiveDate::from_ymd_opt(year, month, 1) {
        Some(first) => match first.pred_opt() {
            Some(p) => Some(p.day() as u8),
            None => None,
        },
        None => None,
    }
}

} // verus!
