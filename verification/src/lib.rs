//! A verified calendar month-grid calculator.
//!
//! Given a year and a 1-based month number, the library produces the
//! fixed-length 42-cell grid (6 rows of 7, starting on Sunday) that a
//! calendar page draws: leading blanks up to the weekday of the month's
//! first day, one numbered cell per day of the month, and trailing blanks
//! padding the grid to 42 cells.

pub mod chrono_bridge;
pub mod datemath;
pub mod grid;
