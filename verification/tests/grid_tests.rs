use chrono::Datelike;
use monthgrid::grid::{compute_grid, GridCell, Monthcal, GRID_LEN};

fn day_count(grid: &[GridCell]) -> usize {
    grid.iter().filter(|c| matches!(c, GridCell::Day(_))).count()
}

fn first_day_index(grid: &[GridCell]) -> Option<usize> {
    grid.iter().position(|c| matches!(c, GridCell::Day(_)))
}

#[test]
fn grid_has_42_cells() {
    let pairs: [(i32, u32); 8] = [
        (2026, 1),
        (2024, 2),
        (2026, 12),
        (1900, 6),
        (-44, 3),
        (2026, 0),
        (2026, 13),
        (300000, 5),
    ];
    for (y, m) in pairs {
        assert_eq!(compute_grid(y, m).len(), GRID_LEN);
    }
}

#[test]
fn february_day_count_follows_leap_years() {
    assert_eq!(day_count(&compute_grid(2024, 2)), 29);
    assert_eq!(day_count(&compute_grid(2023, 2)), 28);
    assert_eq!(day_count(&compute_grid(2000, 2)), 29);
    assert_eq!(day_count(&compute_grid(1900, 2)), 28);
}

#[test]
fn day_counts_match_month_lengths() {
    let lengths: [usize; 12] = [31, 28, 31, 30, 31, 30, 31, 31, 30, 31, 30, 31];
    for m in 1..=12u32 {
        assert_eq!(day_count(&compute_grid(2026, m)), lengths[(m - 1) as usize]);
    }
}

#[test]
fn first_day_sits_at_weekday_of_the_first() {
    // 2026-01-01 is a Thursday, 2026-02-01 a Sunday, 2026-12-01 a Tuesday,
    // 2024-02-01 a Thursday, 2023-02-01 a Wednesday.
    assert_eq!(first_day_index(&compute_grid(2026, 1)), Some(4));
    assert_eq!(first_day_index(&compute_grid(2026, 2)), Some(0));
    assert_eq!(first_day_index(&compute_grid(2026, 12)), Some(2));
    assert_eq!(first_day_index(&compute_grid(2024, 2)), Some(4));
    assert_eq!(first_day_index(&compute_grid(2023, 2)), Some(3));
}

#[test]
fn startweekday_agrees_with_date_backend() {
    for y in [-400, 1, 1600, 1970, 2023, 2026, 262142] {
        for m in 1..=12u32 {
            let expect = chrono::NaiveDate::from_ymd_opt(y, m, 1)
                .unwrap()
                .weekday()
                .num_days_from_sunday();
            assert_eq!(Monthcal::new(y, m).startweekday(), expect);
            assert_eq!(first_day_index(&compute_grid(y, m)), Some(expect as usize));
        }
    }
}

#[test]
fn december_rollover() {
    // the last day of December 2026 is found by rolling over to January of
    // 2027 and stepping back one day
    assert_eq!(Monthcal::new(2026, 12).lastday(), 31);
    assert_eq!(day_count(&compute_grid(2026, 12)), 31);
}

#[test]
fn grid_is_pure() {
    let a = compute_grid(2026, 7);
    let b = compute_grid(2026, 7);
    assert_eq!(a, b);
    let c = compute_grid(2026, 0);
    let d = compute_grid(2026, 0);
    assert_eq!(c, d);
}

#[test]
fn exact_grid_for_a_sunday_starting_month() {
    // February 2026 starts on a Sunday and has 28 days: day cells fill the
    // first four rows exactly, blanks fill the last two.
    let grid = compute_grid(2026, 2);
    for (i, cell) in grid.iter().enumerate() {
        if i < 28 {
            assert_eq!(*cell, GridCell::Day((i + 1) as u8));
        } else {
            assert_eq!(*cell, GridCell::Blank);
        }
    }
}

#[test]
fn exact_grid_for_a_midweek_starting_month() {
    // January 2026 starts on a Thursday (index 4) and has 31 days.
    let grid = compute_grid(2026, 1);
    for (i, cell) in grid.iter().enumerate() {
        if i < 4 || i >= 4 + 31 {
            assert_eq!(*cell, GridCell::Blank);
        } else {
            assert_eq!(*cell, GridCell::Day((i - 4 + 1) as u8));
        }
    }
}

#[test]
fn out_of_range_month_falls_back() {
    // an invalid month falls back to the fixed default date, January 1 of
    // 2026, a Thursday; the day count comes from rolling the month number
    // over as given
    for m in [0u32, 13, 99] {
        assert_eq!(Monthcal::new(2026, m).startweekday(), 4);
    }
    // month 0: the "following month" is January, so the count is December's
    assert_eq!(Monthcal::new(2026, 0).lastday(), 31);
    assert_eq!(Monthcal::new(2026, 13).lastday(), 31);
}

#[test]
fn out_of_range_year_falls_back() {
    for y in [300000, -300000, i32::MAX, i32::MIN] {
        assert_eq!(Monthcal::new(y, 6).startweekday(), 4);
        assert_eq!(compute_grid(y, 6).len(), GRID_LEN);
    }
    // no panic at the numeric edge of the year type
    assert_eq!(Monthcal::new(i32::MAX, 12).lastday(), 31);
    assert_eq!(Monthcal::new(i32::MIN, 1).lastday(), 31);
    assert_eq!(Monthcal::new(2026, u32::MAX).lastday(), 31);
}

#[test]
fn lastday_at_the_backend_range_edges() {
    // the latest representable year still rolls over safely
    assert_eq!(Monthcal::new(262142, 12).lastday(), 31);
    // the earliest representable date has no predecessor; the calculator
    // falls back rather than failing
    assert_eq!(Monthcal::new(-262144, 12).lastday(), 31);
    assert_eq!(Monthcal::new(-262143, 1).lastday(), 31);
}
