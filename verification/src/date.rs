//! Calendar dates: reading the archive's `dd-mm-yyyy` and writing ISO 8601.

use vstd::prelude::*;
use chrono::Datelike;

verus! {

/// A calendar date as year, month and day.
#[derive(Clone, Copy, Debug, PartialEq, Eq, Hash, Structural)]
pub struct EventDate {
    pub year: i32,
    pub month: u32,
    pub day: u32,
}

/// The year, month and day that `chrono::NaiveDate::parse_from_str` reads
/// from a text under a format, or none where it reports an error.
pub uninterp spec fn parsed_date(text: Seq<char>, format: Seq<char>) -> Option<(i32, u32, u32)>;

/// What `chrono::NaiveDate` displays for a year, month and day, or none where
/// `chrono::NaiveDate::from_ymd_opt` knows no such day.
pub uninterp spec fn displayed_date(year: i32, month: u32, day: u32) -> Option<Seq<char>>;

/// Calls `chrono::NaiveDate::parse_from_str` and hands back the date's
/// `year()`, `month()` and `day()`. The outcome depends on the two texts
/// alone; a month that comes back lies in 1..=12 and a day in 1..=31, as
/// `Datelike` documents.
#[verifier::external_body]
fn parse_date(text: &str, format: &str) -> (out: Option<(i32, u32, u32)>)
    ensures
        out == parsed_date(text@, format@),
        out matches Some(ymd) ==> 1 <= ymd.1 <= 12 && 1 <= ymd.2 <= 31,
{
    match chrono::NaiveDate::parse_from_str(text, format) {
        Ok(date) => Some((date.year(), date.month(), date.day())),
        Err(_) => None,
    }
}

/// Builds the day with `chrono::NaiveDate::from_ymd_opt` and returns what its
/// `Display` writes. The outcome depends on the three numbers alone.
#[verifier::external_body]
fn display_date(year: i32, month: u32, day: u32) -> (out: Option<String>)
    ensures
        out is Some <==> displayed_date(year, month, day) is Some,
        out matches Some(text) ==> displayed_date(year, month, day) == Some(text@),
{
    chrono::NaiveDate::from_ymd_opt(year, month, day).map(|date| date.to_string())
}

/// The date that an archive text stands for, or none where the text is no
/// date.
pub open spec fn event_date_of(text: Seq<char>) -> Option<EventDate> {
    match parsed_date(text, "%d-%m-%Y"@) {
        Some(ymd) => Some(EventDate { year: ymd.0, month: ymd.1, day: ymd.2 }),
        None => None,
    }
}

impl EventDate {
    /// The month is one of twelve and the day at most the thirty-first.
    pub open spec fn in_range(&self) -> bool {
        1 <= self.month <= 12 && 1 <= self.day <= 31
    }

    /// The ISO 8601 text of the date, or none where the calendar has no such
    /// day.
    pub open spec fn iso_text(&self) -> Option<Seq<char>> {
        displayed_date(self.year, self.month, self.day)
    }

    /// Reads a date written as day, month and year with hyphens between.
    pub fn parse(text: &str) -> (out: Option<EventDate>)
        ensures
            out == event_date_of(text@),
            out matches Some(date) ==> date.in_range(),
    {
        match parse_date(text, "%d-%m-%Y") {
            Some(ymd) => Some(EventDate { year: ymd.0, month: ymd.1, day: ymd.2 }),
            None => None,
        }
    }

    /// Writes the date as year, month and day with hyphens between.
    pub fn iso(&self) -> (out: Option<String>)
        ensures
            out is Some <==> self.iso_text() is Some,
            out matches Some(text) ==> self.iso_text() == Some(text@),
    {
        display_date(self.year, self.month, self.day)
    }
}

} // verus!
