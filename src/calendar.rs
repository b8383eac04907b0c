use crate::date::Date;
use chrono::{Datelike, Timelike};
use vstd::prelude::*;

verus! {

/// What `chrono::NaiveDate::parse_from_str(s, "%d.%m.%Y")` yields for `s`, as year,
/// month and day.
pub uninterp spec fn parsed_date(s: Seq<char>) -> Option<(int, int, int)>;

/// What `chrono::NaiveTime::parse_from_str(s, "%H:%M")` yields for `s`, as hour and
/// minute.
pub uninterp spec fn parsed_time(s: Seq<char>) -> Option<(int, int)>;

/// What `chrono::NaiveDate::format(d, "%d.%m.%Y")` writes for the date `y`-`m`-`d`.
pub uninterp spec fn date_text(y: int, m: int, d: int) -> Seq<char>;

/// Relies on `chrono::NaiveDate::parse_from_str` with the pattern `%d.%m.%Y`; a
/// `NaiveDate` is always a valid date between `MIN_YEAR` and `MAX_YEAR`.
#[verifier::external_body]
pub(crate) fn parse_date(s: &str) -> (r: Option<Date>)
    ensures
        match r {
            Some(d) => d.wf() && parsed_date(s@) == Some((d.year as int, d.month as int, d.day as int)),
            None => parsed_date(s@) is None,
        },
{
    match chrono::NaiveDate::parse_from_str(s, "%d.%m.%Y") {
        Ok(d) => Some(Date { year: d.year(), month: d.month(), day: d.day() }),
        Err(_) => None,
    }
}

/// Relies on `chrono::NaiveTime::parse_from_str` with the pattern `%H:%M`; the hour of
/// a `NaiveTime` lies in 0..24. Yields that hour.
#[verifier::external_body]
pub(crate) fn parse_hour(s: &str) -> (r: Option<u32>)
    ensures
        match r {
            Some(h) => h < 24 && parsed_time(s@) is Some && parsed_time(s@).unwrap().0 == h,
            None => parsed_time(s@) is None,
        },
{
    match chrono::NaiveTime::parse_from_str(s, "%H:%M") {
        Ok(t) => Some(t.hour()),
        Err(_) => None,
    }
}

/// Relies on `chrono::NaiveDate::from_ymd_opt`, which accepts every valid date between
/// `MIN_YEAR` and `MAX_YEAR`, and on its `format` with the pattern `%d.%m.%Y`.
#[verifier::external_body]
pub(crate) fn format_date(d: Date) -> (r: String)
    requires
        d.wf(),
    ensures
        r@ == date_text(d.year as int, d.month as int, d.day as int),
{
    match chrono::NaiveDate::from_ymd_opt(d.year, d.month, d.day) {
        Some(n) => n.format("%d.%m.%Y").to_string(),
        None => String::new(),
    }
}

} // verus!
