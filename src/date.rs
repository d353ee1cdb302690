//! Calendar dates as plain year, month and day numbers.
use vstd::prelude::*;
use chrono::Datelike;

verus! {

/// A calendar date; month counts from 1 and day of month from 1.
#[derive(Clone, Copy, Debug, PartialEq, Eq, Structural)]
pub struct Date {
    pub year: i32,
    pub month: u32,
    pub day: u32,
}

impl Date {
    pub open spec fn wf(&self) -> bool {
        1 <= self.month <= 12 && 1 <= self.day <= 31
    }
}

/// Year, month and day that chrono's `NaiveDate::parse_from_str` reads from
/// `s` with format `fmt`, when it accepts them.
pub uninterp spec fn parsed_date(s: Seq<char>, fmt: Seq<char>) -> Option<(int, int, int)>;

/// A date made of a parsed (year, month, day) triple.
pub open spec fn date_from(t: Option<(int, int, int)>) -> Option<Date> {
    match t {
        Some(t) => Some(Date { year: t.0 as i32, month: t.1 as u32, day: t.2 as u32 }),
        None => None,
    }
}

/// Relies on chrono's `NaiveDate::parse_from_str`, read back through
/// `Datelike::{year, month, day}`: the outcome depends on the two strings
/// alone, and a `NaiveDate`'s month lies in 1..=12 and its day in 1..=31.
#[verifier::external_body]
fn parse_date_with(s: &str, fmt: &str) -> (r: Option<Date>)
    ensures
        r == date_from(parsed_date(s@, fmt@)),
        r is Some ==> r->0.wf(),
{
    match chrono::NaiveDate::parse_from_str(s, fmt) {
        Ok(d) => Some(Date { year: d.year(), month: d.month(), day: d.day() }),
        Err(_) => None,
    }
}

/// The date format of both bank exports.
pub open spec fn iso_format() -> Seq<char> {
    "%Y-%m-%d"@
}

/// The date that `s` holds in `YYYY-MM-DD` form, as chrono reads it.
pub open spec fn iso_date(s: Seq<char>) -> Option<Date> {
    date_from(parsed_date(s, iso_format()))
}

/// Parses a `YYYY-MM-DD` date.
pub fn parse_iso_date(s: &str) -> (r: Option<Date>)
    ensures
        r == iso_date(s@),
        r is Some ==> r->0.wf(),
{
    parse_date_with(s, "%Y-%m-%d")
}

} // verus!
