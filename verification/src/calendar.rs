//! Calendar dates and hour-of-day timestamps, with exact Gregorian
//! arithmetic: leap years, month lengths, and a global hour index that
//! orders timestamps chronologically.
use vstd::prelude::*;

verus! {

/// Largest year the library works with; keeps exec arithmetic far from
/// integer limits.
pub const MAX_YEAR: u32 = 100_000;

/// A calendar date (year, month, day), valid when `wf()` holds.
#[derive(Clone, Copy, PartialEq, Eq, Structural, Debug)]
pub struct Date {
    pub year: u32,
    pub month: u8,
    pub day: u8,
}

/// One clock hour of a calendar date: the record granularity of the whole
/// library.  `hour` is the hour at which the record's period starts; the
/// period always ends 59 minutes later.
#[derive(Clone, Copy, PartialEq, Eq, Structural, Debug)]
pub struct DateTime {
    pub date: Date,
    pub hour: u8,
}

pub open spec fn is_leap_year(y: int) -> bool {
    y % 4 == 0 && (y % 100 != 0 || y % 400 == 0)
}

pub open spec fn days_in_year(y: int) -> int {
    if is_leap_year(y) {
        366
    } else {
        365
    }
}

pub open spec fn days_in_month(y: int, m: int) -> int {
    if m == 2 {
        if is_leap_year(y) {
            29
        } else {
            28
        }
    } else if m == 4 || m == 6 || m == 9 || m == 11 {
        30
    } else {
        31
    }
}

/// Days in all years before year `y` (year 0 is day 0).
pub open spec fn days_before_year(y: int) -> int
    decreases y,
{
    if y <= 0 {
        0
    } else {
        days_before_year(y - 1) + days_in_year(y - 1)
    }
}

/// Days in the months of year `y` that precede month `m`.
pub open spec fn days_before_month(y: int, m: int) -> int
    decreases m,
{
    if m <= 1 {
        0
    } else {
        days_before_month(y, m - 1) + days_in_month(y, m - 1)
    }
}

impl Date {
    pub open spec fn wf(self) -> bool {
        1 <= self.month <= 12 && 1 <= self.day <= days_in_month(
            self.year as int,
            self.month as int,
        ) && self.year <= MAX_YEAR
    }

    /// Global day number: days elapsed since day 1 of year 0.
    pub open spec fn day_index(self) -> int {
        days_before_year(self.year as int) + days_before_month(self.year as int, self.month as int)
            + self.day - 1
    }

    /// Strict chronological order, written over the fields.
    pub open spec fn lex_lt(self, other: Date) -> bool {
        self.year < other.year || (self.year == other.year && (self.month < other.month || (
        self.month == other.month && self.day < other.day)))
    }
}

impl DateTime {
    pub open spec fn wf(self) -> bool {
        self.date.wf() && self.hour < 24
    }

    /// Global hour number: hours elapsed since hour 0 of day 1 of year 0.
    pub open spec fn hour_index(self) -> int {
        self.date.day_index() * 24 + self.hour
    }

    pub open spec fn lex_lt(self, other: DateTime) -> bool {
        self.date.lex_lt(other.date) || (self.date == other.date && self.hour < other.hour)
    }
}

/// The timestamp one hour after `dt`, rolling over day, month and year.
pub open spec fn spec_next_hour(dt: DateTime) -> DateTime {
    if dt.hour < 23 {
        DateTime { date: dt.date, hour: (dt.hour + 1) as u8 }
    } else if dt.date.day < days_in_month(dt.date.year as int, dt.date.month as int) {
        DateTime { date: Date { day: (dt.date.day + 1) as u8, ..dt.date }, hour: 0 }
    } else if dt.date.month < 12 {
        DateTime {
            date: Date { year: dt.date.year, month: (dt.date.month + 1) as u8, day: 1 },
            hour: 0,
        }
    } else {
        DateTime { date: Date { year: (dt.date.year + 1) as u32, month: 1, day: 1 }, hour: 0 }
    }
}

/// The timestamp `k` hours after `dt`.
pub open spec fn dt_add_hours(dt: DateTime, k: nat) -> DateTime
    decreases k,
{
    if k == 0 {
        dt
    } else {
        spec_next_hour(dt_add_hours(dt, (k - 1) as nat))
    }
}

/// A whole year's months sum to the year's length.
pub proof fn lemma_days_before_month_total(y: int)
    ensures
        days_before_month(y, 13) == days_in_year(y),
{
    reveal_with_fuel(days_before_month, 13);
    assert(days_before_month(y, 13) == 337 + days_in_month(y, 2));
}

/// `days_before_month` grows with the month.
pub proof fn lemma_days_before_month_mono(y: int, m1: int, m2: int)
    requires
        m1 <= m2,
    ensures
        days_before_month(y, m1) <= days_before_month(y, m2),
    decreases m2 - m1,
{
    if m1 < m2 {
        lemma_days_before_month_mono(y, m1, m2 - 1);
        assert(days_in_month(y, m2 - 1) > 0);
    }
}

/// Whole earlier years always come before any day of a later year.
pub proof fn lemma_days_before_year_mono(y1: int, y2: int)
    requires
        0 <= y1 < y2,
    ensures
        days_before_year(y1) + days_in_year(y1) <= days_before_year(y2),
    decreases y2 - y1,
{
    if y1 + 1 < y2 {
        lemma_days_before_year_mono(y1, y2 - 1);
        assert(days_in_year(y2 - 1) > 0);
    }
}


/// A valid date's day index falls inside its year's day range.
pub proof fn lemma_day_index_in_year(d: Date)
    requires
        d.wf(),
    ensures
        days_before_year(d.year as int) <= d.day_index(),
        d.day_index() < days_before_year(d.year as int) + days_in_year(d.year as int),
{
    lemma_days_before_month_mono(d.year as int, 1, d.month as int);
    lemma_days_before_month_mono(d.year as int, d.month as int + 1, 13);
    lemma_days_before_month_total(d.year as int);
    assert(days_before_month(d.year as int, d.month as int + 1) == days_before_month(
        d.year as int,
        d.month as int,
    ) + days_in_month(d.year as int, d.month as int));
}

/// Chronological (lexicographic) order of valid dates agrees with the order
/// of their day indices.
pub proof fn lemma_date_lt_day_index(d1: Date, d2: Date)
    requires
        d1.wf(),
        d2.wf(),
        d1.lex_lt(d2),
    ensures
        d1.day_index() < d2.day_index(),
{
    if d1.year < d2.year {
        lemma_day_index_in_year(d1);
        lemma_day_index_in_year(d2);
        lemma_days_before_year_mono(d1.year as int, d2.year as int);
    } else if d1.month < d2.month {
        lemma_days_before_month_mono(d1.year as int, d1.month as int + 1, d2.month as int);
        assert(days_before_month(d1.year as int, d1.month as int + 1) == days_before_month(
            d1.year as int,
            d1.month as int,
        ) + days_in_month(d1.year as int, d1.month as int));
    }
}

/// Chronological order of valid timestamps agrees with the order of their
/// hour indices; in particular the hour index is injective on valid
/// timestamps.
pub proof fn lemma_lex_lt_hour_index(a: DateTime, b: DateTime)
    requires
        a.wf(),
        b.wf(),
    ensures
        a.lex_lt(b) <==> a.hour_index() < b.hour_index(),
        a == b <==> a.hour_index() == b.hour_index(),
{
    if a.lex_lt(b) {
        if a.date.lex_lt(b.date) {
            lemma_date_lt_day_index(a.date, b.date);
        }
    }
    if b.lex_lt(a) {
        if b.date.lex_lt(a.date) {
            lemma_date_lt_day_index(b.date, a.date);
        }
    }
    if a != b {
        assert(a.lex_lt(b) || b.lex_lt(a));
    }
}

/// Advancing one hour advances the hour index by exactly one and keeps the
/// timestamp valid (as long as the year stays in range).
pub proof fn lemma_next_hour(dt: DateTime)
    requires
        dt.wf(),
        dt.date.year < MAX_YEAR,
    ensures
        spec_next_hour(dt).wf(),
        spec_next_hour(dt).hour_index() == dt.hour_index() + 1,
{
    let y = dt.date.year as int;
    let m = dt.date.month as int;
    if dt.hour < 23 {
    } else if dt.date.day < days_in_month(y, m) {
    } else if dt.date.month < 12 {
        assert(days_before_month(y, m + 1) == days_before_month(y, m) + days_in_month(y, m));
        assert(days_in_month(y, m + 1) > 0);
    } else {
        lemma_days_before_month_total(y);
        assert(days_before_month(y, 13) == days_before_month(y, 12) + days_in_month(y, 12));
        assert(days_before_year(y + 1) == days_before_year(y) + days_in_year(y));
    }
}

/// Exec mirror of `days_in_month`.
pub fn days_in_month_of(year: u32, month: u8) -> (r: u8)
    ensures
        r as int == days_in_month(year as int, month as int),
{
    if month == 2 {
        if year % 4 == 0 && (year % 100 != 0 || year % 400 == 0) {
            29
        } else {
            28
        }
    } else if month == 4 || month == 6 || month == 9 || month == 11 {
        30
    } else {
        31
    }
}

/// The timestamp one hour later.
pub fn next_hour(dt: DateTime) -> (r: DateTime)
    requires
        dt.wf(),
        dt.date.year < MAX_YEAR,
    ensures
        r == spec_next_hour(dt),
        r.wf(),
        r.hour_index() == dt.hour_index() + 1,
{
    proof {
        lemma_next_hour(dt);
    }
    if dt.hour < 23 {
        DateTime { date: dt.date, hour: dt.hour + 1 }
    } else if dt.date.day < days_in_month_of(dt.date.year, dt.date.month) {
        DateTime { date: Date { day: dt.date.day + 1, ..dt.date }, hour: 0 }
    } else if dt.date.month < 12 {
        DateTime { date: Date { year: dt.date.year, month: dt.date.month + 1, day: 1 }, hour: 0 }
    } else {
        DateTime { date: Date { year: dt.date.year + 1, month: 1, day: 1 }, hour: 0 }
    }
}

/// Chronological "not later than" test on valid timestamps.
pub fn datetime_le(a: &DateTime, b: &DateTime) -> (r: bool)
    requires
        a.wf(),
        b.wf(),
    ensures
        r == (a.hour_index() <= b.hour_index()),
{
    proof {
        lemma_lex_lt_hour_index(*a, *b);
    }
    if a.date.year != b.date.year {
        a.date.year < b.date.year
    } else if a.date.month != b.date.month {
        a.date.month < b.date.month
    } else if a.date.day != b.date.day {
        a.date.day < b.date.day
    } else {
        a.hour <= b.hour
    }
}

/// Strict chronological order test on valid dates.
pub fn date_lt(a: &Date, b: &Date) -> (r: bool)
    ensures
        r == a.lex_lt(*b),
{
    if a.year != b.year {
        a.year < b.year
    } else if a.month != b.month {
        a.month < b.month
    } else {
        a.day < b.day
    }
}

/// Number of hourly records an inclusive timestamp range calls for.
pub open spec fn hours_in_range(start: DateTime, end: DateTime) -> int {
    if start.hour_index() <= end.hour_index() {
        end.hour_index() + 1 - start.hour_index()
    } else {
        0
    }
}

/// English name of a calendar month, `"Unknown"` outside 1..=12.
pub fn get_month_name(month: u32) -> (r: String)
    ensures
        month == 1 ==> r@ == "January"@,
        month == 2 ==> r@ == "February"@,
        month == 3 ==> r@ == "March"@,
        month == 4 ==> r@ == "April"@,
        month == 5 ==> r@ == "May"@,
        month == 6 ==> r@ == "June"@,
        month == 7 ==> r@ == "July"@,
        month == 8 ==> r@ == "August"@,
        month == 9 ==> r@ == "September"@,
        month == 10 ==> r@ == "October"@,
        month == 11 ==> r@ == "November"@,
        month == 12 ==> r@ == "December"@,
        !(1 <= month <= 12) ==> r@ == "Unknown"@,
{
    match month {
        1 => String::from_str("January"),
        2 => String::from_str("February"),
        3 => String::from_str("March"),
        4 => String::from_str("April"),
        5 => String::from_str("May"),
        6 => String::from_str("June"),
        7 => String::from_str("July"),
        8 => String::from_str("August"),
        9 => String::from_str("September"),
        10 => String::from_str("October"),
        11 => String::from_str("November"),
        12 => String::from_str("December"),
        _ => String::from_str("Unknown"),
    }
}

} // verus!
