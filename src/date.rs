use vstd::prelude::*;

verus! {

/// Smallest year that a `chrono::NaiveDate` can hold.
pub const MIN_YEAR: i32 = -262143;

/// Largest year that a `chrono::NaiveDate` can hold.
pub const MAX_YEAR: i32 = 262142;

/// A calendar date of the proleptic Gregorian calendar, without a time of day.
#[derive(Clone, Copy, Debug, PartialEq, Eq, Structural)]
pub struct Date {
    pub year: i32,
    pub month: u32,
    pub day: u32,
}

pub open spec fn is_leap(y: int) -> bool {
    y % 4 == 0 && (y % 100 != 0 || y % 400 == 0)
}

pub open spec fn year_len(y: int) -> int {
    if is_leap(y) {
        366
    } else {
        365
    }
}

pub open spec fn month_len(y: int, m: int) -> int {
    if m == 2 {
        if is_leap(y) {
            29
        } else {
            28
        }
    } else if m == 4 || m == 6 || m == 9 || m == 11 {
        30
    } else {
        31
    }
}

/// The month and day exist in year `y`.
pub open spec fn valid_ymd(y: int, m: int, d: int) -> bool {
    1 <= m <= 12 && 1 <= d <= month_len(y, m)
}

/// Days of year `y` that come before the first of month `m`.
pub open spec fn days_before_month(y: int, m: int) -> int {
    let l: int = if is_leap(y) {
        1
    } else {
        0
    };
    if m <= 1 {
        0
    } else if m == 2 {
        31
    } else if m == 3 {
        59 + l
    } else if m == 4 {
        90 + l
    } else if m == 5 {
        120 + l
    } else if m == 6 {
        151 + l
    } else if m == 7 {
        181 + l
    } else if m == 8 {
        212 + l
    } else if m == 9 {
        243 + l
    } else if m == 10 {
        273 + l
    } else if m == 11 {
        304 + l
    } else {
        334 + l
    }
}

/// Days from 1 January of year 0 to 1 January of year `y` (negative before year 0).
pub open spec fn days_before_year(y: int) -> int {
    365 * y + (y + 3) / 4 - (y + 99) / 100 + (y + 399) / 400
}

impl Date {
    pub open spec fn valid(self) -> bool {
        valid_ymd(self.year as int, self.month as int, self.day as int)
    }

    /// A valid date in the range that `chrono::NaiveDate` covers.
    pub open spec fn wf(self) -> bool {
        self.valid() && MIN_YEAR <= self.year <= MAX_YEAR
    }

    /// Position of the date within its year, 1 for 1 January.
    pub open spec fn ordinal(self) -> int {
        days_before_month(self.year as int, self.month as int) + self.day
    }

    /// Number of the day on a continuous count of days.
    pub open spec fn day_number(self) -> int {
        days_before_year(self.year as int) + self.ordinal() - 1
    }

    pub open spec fn le(self, other: Date) -> bool {
        self.year < other.year || (self.year == other.year && (self.month < other.month || (
        self.month == other.month && self.day <= other.day)))
    }
}

/// Whole days from `from` to `to`.
pub open spec fn days_between(from: Date, to: Date) -> int {
    to.day_number() - from.day_number()
}

/// The occurrence of `birthdate`'s month and day in year `y`; 28 February where the
/// day does not exist in that year.
pub open spec fn occurrence_in(birthdate: Date, y: int) -> Date {
    if valid_ymd(y, birthdate.month as int, birthdate.day as int) {
        Date { year: y as i32, month: birthdate.month, day: birthdate.day }
    } else {
        Date { year: y as i32, month: 2, day: 28 }
    }
}

/// The first occurrence of `birthdate`'s month and day on or after `today`.
pub open spec fn next_occurrence_spec(birthdate: Date, today: Date) -> Date {
    let this_year = occurrence_in(birthdate, today.year as int);
    if today.le(this_year) {
        this_year
    } else {
        occurrence_in(birthdate, today.year + 1)
    }
}

proof fn lemma_div_step(y: int)
    ensures
        (y + 4) / 4 - (y + 3) / 4 == (if y % 4 == 0 { 1int } else { 0int }),
        (y + 100) / 100 - (y + 99) / 100 == (if y % 100 == 0 { 1int } else { 0int }),
        (y + 400) / 400 - (y + 399) / 400 == (if y % 400 == 0 { 1int } else { 0int }),
{
}

/// Consecutive years are `year_len` days apart on the continuous day count.
pub proof fn lemma_year_step(y: int)
    ensures
        days_before_year(y + 1) == days_before_year(y) + year_len(y),
{
    lemma_div_step(y);
    assert(y % 400 == 0 ==> y % 100 == 0);
    assert(y % 100 == 0 ==> y % 4 == 0);
}

/// Ordinals of a valid date lie within its year, and follow the calendar order.
pub proof fn lemma_ordinal_bounds(a: Date, b: Date)
    requires
        a.valid(),
        b.valid(),
        a.year == b.year,
    ensures
        1 <= a.ordinal() <= year_len(a.year as int),
        a.le(b) <==> a.ordinal() <= b.ordinal(),
        a == b <==> a.ordinal() == b.ordinal(),
{
}

/// `true` when `d` is a day of month `m` of year `y` (what `NaiveDate::from_ymd_opt`
/// accepts within its year range).
pub fn is_valid_ymd(y: i32, m: u32, d: u32) -> (r: bool)
    ensures
        r == valid_ymd(y as int, m as int, d as int),
{
    if m < 1 || m > 12 || d < 1 {
        return false;
    }
    d <= month_days(y, m)
}

pub fn is_leap_year(y: i32) -> (r: bool)
    ensures
        r == is_leap(y as int),
{
    y % 4 == 0 && (y % 100 != 0 || y % 400 == 0)
}

pub fn month_days(y: i32, m: u32) -> (r: u32)
    ensures
        r == month_len(y as int, m as int),
{
    if m == 2 {
        if is_leap_year(y) {
            29
        } else {
            28
        }
    } else if m == 4 || m == 6 || m == 9 || m == 11 {
        30
    } else {
        31
    }
}

fn ordinal_of(d: Date) -> (r: u32)
    requires
        d.valid(),
    ensures
        r == d.ordinal(),
{
    let l: u32 = if is_leap_year(d.year) {
        1
    } else {
        0
    };
    let before: u32 = if d.month <= 1 {
        0
    } else if d.month == 2 {
        31
    } else if d.month == 3 {
        59 + l
    } else if d.month == 4 {
        90 + l
    } else if d.month == 5 {
        120 + l
    } else if d.month == 6 {
        151 + l
    } else if d.month == 7 {
        181 + l
    } else if d.month == 8 {
        212 + l
    } else if d.month == 9 {
        243 + l
    } else if d.month == 10 {
        273 + l
    } else if d.month == 11 {
        304 + l
    } else {
        334 + l
    };
    before + d.day
}

/// The month and day of `birthdate` in year `y`, or 28 February where that day does
/// not exist in `y`.
pub fn occurrence(birthdate: Date, y: i32) -> (r: Date)
    ensures
        r == occurrence_in(birthdate, y as int),
        r.valid(),
{
    if is_valid_ymd(y, birthdate.month, birthdate.day) {
        Date { year: y, month: birthdate.month, day: birthdate.day }
    } else {
        Date { year: y, month: 2, day: 28 }
    }
}

/// `a` comes on or before `b`.
pub fn date_le(a: Date, b: Date) -> (r: bool)
    ensures
        r == a.le(b),
{
    a.year < b.year || (a.year == b.year && (a.month < b.month || (a.month == b.month && a.day
        <= b.day)))
}

/// The next date, on or after `today`, that has `birthdate`'s month and day.
pub fn next_occurrence(birthdate: Date, today: Date) -> (r: Date)
    requires
        today.wf(),
    ensures
        r == next_occurrence_spec(birthdate, today),
        r.valid(),
{
    let this_year = occurrence(birthdate, today.year);
    if date_le(today, this_year) {
        this_year
    } else {
        occurrence(birthdate, today.year + 1)
    }
}

/// Whole days from `today` to the next occurrence of `birthdate`.
pub fn days_until_next(birthdate: Date, today: Date) -> (r: u32)
    requires
        today.wf(),
    ensures
        r == days_between(today, next_occurrence_spec(birthdate, today)),
        r <= 366,
{
    let next = next_occurrence(birthdate, today);
    let from = ordinal_of(today);
    let to = ordinal_of(next);
    proof {
        lemma_ordinal_bounds(today, today);
        lemma_ordinal_bounds(next, next);
    }
    if next.year == today.year {
        proof {
            lemma_ordinal_bounds(today, next);
        }
        to - from
    } else {
        proof {
            lemma_year_step(today.year as int);
        }
        let len: u32 = if is_leap_year(today.year) {
            366
        } else {
            365
        };
        len - from + to
    }
}

} // verus!
