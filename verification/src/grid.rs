//! The month-grid calculator: a (year, month) pair, the 42-cell grid drawn
//! for it, and the laws the grid obeys.

use vstd::prelude::*;
use vstd::pervasive::unreached;
use crate::chrono_bridge::{day_before_first, weekday_of_first};
use crate::datemath::{
    days_in_month, first_weekday, is_earliest_month, month_in_range, valid_ymd, year_in_range,
};

verus! {

/// The number of cells in a month grid: 6 rows of 7 weekdays.
pub const GRID_LEN: usize = 42;

/// One cell of the month grid: a day of the month, or a blank used to pad
/// before the month's first day and after its last.
#[derive(Clone, Copy, PartialEq, Eq, Structural, Debug)]
pub enum GridCell {
    Blank,
    Day(u8),
}

/// The weekday index the calculator uses for (y, m): the weekday of the
/// month's first day when the pair names a representable month, else the
/// weekday of the fixed fallback date, January 1 of 2026.
pub open spec fn start_weekday_of(y: int, m: int) -> int {
    if valid_ymd(y, m, 1) {
        first_weekday(y, m)
    } else {
        first_weekday(2026, 1)
    }
}

/// The day count the calculator uses for (y, m): the day of the date one
/// day before the first of the following month, or 31 when that date
/// cannot be formed.
pub open spec fn last_day_of(y: int, m: int) -> int {
    let ny = if m == 12 {
        y + 1
    } else {
        y
    };
    let nm = if m == 12 {
        1int
    } else {
        m + 1
    };
    if valid_ymd(ny, nm, 1) && !is_earliest_month(ny, nm) {
        if nm == 1 {
            days_in_month(ny - 1, 12)
        } else {
            days_in_month(ny, nm - 1)
        }
    } else {
        31
    }
}

/// Cell i of the grid drawn with fw leading blanks and last day cells:
/// blank before index fw and from index fw + last on, else the day number.
pub open spec fn grid_cell(fw: int, last: int, i: int) -> GridCell {
    if fw <= i < fw + last {
        GridCell::Day((i - fw + 1) as u8)
    } else {
        GridCell::Blank
    }
}

/// The 42-cell grid with fw leading blanks and last day cells.
pub open spec fn grid_seq(fw: int, last: int) -> Seq<GridCell> {
    Seq::new(42, |i: int| grid_cell(fw, last, i))
}

/// The grid the calculator draws for (y, m).
pub open spec fn month_grid(y: int, m: int) -> Seq<GridCell> {
    grid_seq(start_weekday_of(y, m), last_day_of(y, m))
}

/// A (year, month) pair naming one calendar month to draw.
#[derive(Clone, Copy, PartialEq, Eq, Structural)]
pub struct Monthcal {
    pub yr: i32,
    pub mo: u32,
}

impl Monthcal {
    pub fn new(y: i32, m: u32) -> (r: Self)
        ensures
            r.yr == y,
            r.mo == m,
    {
        Monthcal { yr: y, mo: m }
    }

    /// Weekday index (0 = Sunday) of the first day of the month, or of the
    /// fallback date when (yr, mo) names no representable month.
    pub fn startweekday(&self) -> (r: u32)
        ensures
            r == start_weekday_of(self.yr as int, self.mo as int),
            r < 7,
    {
        match weekday_of_first(self.yr, self.mo) {
            Some(w) => w as u32,
            None => match weekday_of_first(2026, 1) {
                Some(w) => w as u32,
                None => unreached(),
            },
        }
    }

    /// Number of day cells the month gets: the day-of-month of the date one
    /// day before the first of the following month, or 31 when no such date
    /// can be formed.
    pub fn lastday(&self) -> (r: u32)
        ensures
            r == last_day_of(self.yr as int, self.mo as int),
            28 <= r <= 31,
    {
        if self.mo == 12 && self.yr == i32::MAX {
            // the following year is not a value of the year type, and lies
            // far outside the representable range in any case
            return 31;
        }
        if self.mo == u32::MAX {
            // the following month index is not a value of the month type,
            // and names no month in any case
            return 31;
        }
        let ny: i32 = if self.mo == 12 {
            self.yr + 1
        } else {
            self.yr
        };
        let nm: u32 = if self.mo == 12 {
            1
        } else {
            self.mo + 1
        };
        match day_before_first(ny, nm) {
            Some(d) => d as u32,
            None => 31,
        }
    }

    /// The 42-cell grid for the month: `startweekday()` leading blanks, the
    /// day cells 1..=`lastday()`, and trailing blanks padding to 42.
    pub fn cgrid(&self) -> (r: Vec<GridCell>)
        ensures
            r@ == month_grid(self.yr as int, self.mo as int),
            r@.len() == 42,
    {
        let fw = self.startweekday();
        let last = self.lastday();
        let mut grid: Vec<GridCell> = Vec::new();
        let mut i: u32 = 0;
        while i < fw
            invariant
                i <= fw,
                fw < 7,
                28 <= last <= 31,
                grid@.len() == i,
                forall|j: int| 0 <= j < grid@.len() ==> grid@[j] == grid_cell(fw as int, last as int, j),
            decreases fw - i,
        {
            grid.push(GridCell::Blank);
            i = i + 1;
        }
        let mut d: u32 = 1;
        while d <= last
            invariant
                1 <= d <= last + 1,
                fw < 7,
                28 <= last <= 31,
                grid@.len() == fw + d - 1,
                forall|j: int| 0 <= j < grid@.len() ==> grid@[j] == grid_cell(fw as int, last as int, j),
            decreases last + 1 - d,
        {
            grid.push(GridCell::Day(d as u8));
            d = d + 1;
        }
        while grid.len() < 42
            invariant
                fw < 7,
                28 <= last <= 31,
                fw + last <= grid@.len() <= 42,
                forall|j: int| 0 <= j < grid@.len() ==> grid@[j] == grid_cell(fw as int, last as int, j),
            decreases 42 - grid@.len(),
        {
            grid.push(GridCell::Blank);
        }
        proof {
            assert(grid@ =~= grid_seq(fw as int, last as int));
        }
        grid
    }
}

/// The month-grid calculator as one call: the 42-cell grid for (year,
/// month), with leading blanks up to the weekday of the month's first day,
/// one cell per day of the month, and trailing blanks padding to 42.
pub fn compute_grid(year: i32, month: u32) -> (r: Vec<GridCell>)
    ensures
        r@ == month_grid(year as int, month as int),
        r@.len() == 42,
{
    Monthcal::new(year, month).cgrid()
}

/// How many cells of s are day cells.
pub open spec fn day_cell_count(s: Seq<GridCell>) -> int
    decreases s.len(),
{
    if s.len() == 0 {
        0
    } else {
        day_cell_count(s.drop_last()) + if s.last() is Day {
            1int
        } else {
            0int
        }
    }
}

/// The first k cells of the grid hold min(max(k - fw, 0), last) day cells:
/// none up to index fw, one per index across the day run, all of them past
/// its end.
proof fn lemma_day_cell_count_prefix(fw: int, last: int, k: int)
    requires
        0 <= fw,
        0 <= last,
        fw + last <= 42,
        0 <= k <= 42,
    ensures
        day_cell_count(grid_seq(fw, last).take(k)) == if k <= fw {
            0int
        } else if k <= fw + last {
            k - fw
        } else {
            last
        },
    decreases k,
{
    let g = grid_seq(fw, last);
    if k == 0 {
        assert(g.take(0).len() == 0);
    } else {
        lemma_day_cell_count_prefix(fw, last, k - 1);
        assert(g.take(k).drop_last() =~= g.take(k - 1));
        assert(g.take(k).last() == grid_cell(fw, last, k - 1));
    }
}

/// Law: for every representable month, rolling over to the first day of
/// the following month and stepping back one day yields exactly the
/// month's length; the out-of-range fallback never hides a real month.
pub proof fn lemma_last_day_rollover(y: int, m: int)
    requires
        month_in_range(m),
        year_in_range(y),
    ensures
        last_day_of(y, m) == days_in_month(y, m),
{
}

/// Law: for every representable month, the grid holds exactly as many day
/// cells as the month has days.
pub proof fn lemma_day_cell_count_is_month_length(y: int, m: int)
    requires
        month_in_range(m),
        year_in_range(y),
    ensures
        day_cell_count(month_grid(y, m)) == days_in_month(y, m),
{
    let fw = start_weekday_of(y, m);
    let last = last_day_of(y, m);
    lemma_last_day_rollover(y, m);
    lemma_day_cell_count_prefix(fw, last, 42);
    assert(grid_seq(fw, last).take(42) =~= grid_seq(fw, last));
}

/// Law: in the grid of a representable month, the cell at the weekday
/// index of the month's first day (0 = Sunday) is day 1 and every cell
/// before it is blank, so the first day cell sits exactly at that index.
pub proof fn lemma_first_day_position(y: int, m: int)
    requires
        month_in_range(m),
        year_in_range(y),
    ensures
        0 <= first_weekday(y, m) < 7,
        month_grid(y, m)[first_weekday(y, m)] == GridCell::Day(1u8),
        forall|j: int| 0 <= j < first_weekday(y, m) ==> month_grid(y, m)[j] == GridCell::Blank,
{
}

/// Law: the grid is a pure function of the (year, month) pair alone: any
/// two grids that meet `compute_grid`'s contract for the same pair are the
/// same sequence of cells.
pub proof fn lemma_grid_deterministic(y: int, m: int, g1: Seq<GridCell>, g2: Seq<GridCell>)
    requires
        g1 == month_grid(y, m),
        g2 == month_grid(y, m),
    ensures
        g1 == g2,
{
}

} // verus!
