//! Calendar days, the eligibility window that a slot's day is held against,
//! and the reading and writing of times, which `chrono` does.

use chrono::{Datelike, Timelike};
use std::fmt::Write;
use vstd::prelude::*;

verus! {

/// A calendar day, ordered by year, then month, then day.
#[derive(Debug, Clone, Copy, PartialEq, Eq, Structural)]
pub struct Date {
    pub year: i32,
    pub month: u32,
    pub day: u32,
}

impl Date {
    /// Whether `self` falls on the same day as `other` or on an earlier one.
    pub open spec fn not_after(self, other: Date) -> bool {
        ||| self.year < other.year
        ||| self.year == other.year && self.month < other.month
        ||| self.year == other.year && self.month == other.month && self.day <= other.day
    }

    /// Tests `not_after`.
    pub fn is_not_after(&self, other: &Date) -> (r: bool)
        ensures
            r == self.not_after(*other),
    {
        if self.year != other.year {
            self.year < other.year
        } else if self.month != other.month {
            self.month < other.month
        } else {
            self.day <= other.day
        }
    }
}

/// The days on which a slot is worth a notification: from `arrival` to
/// `leave`, both included.
#[derive(Debug, Clone, Copy, PartialEq, Eq, Structural)]
pub struct EligibilityWindow {
    pub arrival: Date,
    pub leave: Date,
}

impl EligibilityWindow {
    /// Whether `day` lies in the window.
    pub open spec fn holds(self, day: Date) -> bool {
        self.arrival.not_after(day) && day.not_after(self.leave)
    }

    /// Tests `holds`.
    pub fn contains(&self, day: &Date) -> (r: bool)
        ensures
            r == self.holds(*day),
    {
        self.arrival.is_not_after(day) && day.is_not_after(&self.leave)
    }
}

/// A day and a time of day, to the minute.
#[derive(Debug, Clone, Copy, PartialEq, Eq, Structural)]
pub struct SlotTime {
    pub date: Date,
    pub hour: u32,
    pub minute: u32,
}

/// The year, month, day, hour and minute of a time.
pub open spec fn time_fields(time: Option<SlotTime>) -> Option<(i32, u32, u32, u32, u32)> {
    match time {
        Some(t) => Some((t.date.year, t.date.month, t.date.day, t.hour, t.minute)),
        None => None,
    }
}

/// The characters of a text, where there is one.
pub open spec fn text_view(text: Option<String>) -> Option<Seq<char>> {
    match text {
        Some(t) => Some(t@),
        None => None,
    }
}

/// What `chrono` reads out of `text` under the format `format`: year,
/// month, day, hour and minute, or `None` where it rejects the text.
pub uninterp spec fn parsed_date_time(text: Seq<char>, format: Seq<char>) -> Option<
    (i32, u32, u32, u32, u32),
>;

/// What `chrono` writes for a time under the format `format`, or `None`
/// where there is no such time or the format is not one it can write.
pub uninterp spec fn formatted_date_time(
    year: i32,
    month: u32,
    day: u32,
    hour: u32,
    minute: u32,
    format: Seq<char>,
) -> Option<Seq<char>>;

/// Reads a time with `chrono::NaiveDateTime::parse_from_str`.
///
/// The contract claims that the outcome depends on the text and the format
/// alone, and names it; it claims nothing about which texts are accepted.
/// Seconds and fractions that a format may read are not kept.
#[verifier::external_body]
pub(crate) fn parse_date_time(text: &str, format: &str) -> (r: Option<SlotTime>)
    ensures
        time_fields(r) == parsed_date_time(text@, format@),
{
    match chrono::NaiveDateTime::parse_from_str(text, format) {
        Ok(t) => Some(
            SlotTime {
                date: Date { year: t.year(), month: t.month(), day: t.day() },
                hour: t.hour(),
                minute: t.minute(),
            },
        ),
        Err(_) => None,
    }
}

/// Writes a time with `chrono::NaiveDateTime::format`, at second zero.
///
/// The contract claims that the outcome depends on the five fields and the
/// format alone, and names it. `None` comes where `chrono` has no such day or
/// time of day, or fails to write under the format.
#[verifier::external_body]
pub(crate) fn format_date_time(time: &SlotTime, format: &str) -> (r: Option<String>)
    ensures
        text_view(r) == formatted_date_time(
            time.date.year,
            time.date.month,
            time.date.day,
            time.hour,
            time.minute,
            format@,
        ),
{
    let day = chrono::NaiveDate::from_ymd_opt(time.date.year, time.date.month, time.date.day)?;
    let at = day.and_hms_opt(time.hour, time.minute, 0)?;
    let mut text = String::new();
    match write!(text, "{}", at.format(format)) {
        Ok(()) => Some(text),
        Err(_) => None,
    }
}

/// The format of a slot's timestamp: `YYYY-MM-DDTHH:MM`.
pub open spec fn timestamp_format() -> Seq<char> {
    "%Y-%m-%dT%H:%M"@
}

/// The format in which a notification shows a slot's time: the hour on the
/// twelve-hour clock, the minute, AM or PM, then the weekday, the month and
/// the day of the month.
pub open spec fn display_format() -> Seq<char> {
    "%l:%M %p on %A %B %-d"@
}

impl SlotTime {
    /// Reads a slot's timestamp; `None` where the text is not one.
    pub fn from_timestamp(text: &str) -> (r: Option<SlotTime>)
        ensures
            time_fields(r) == parsed_date_time(text@, timestamp_format()),
    {
        parse_date_time(text, "%Y-%m-%dT%H:%M")
    }

    /// The time as a notification shows it; `None` where it cannot be
    /// written.
    pub fn display_text(&self) -> (r: Option<String>)
        ensures
            text_view(r) == formatted_date_time(
                self.date.year,
                self.date.month,
                self.date.day,
                self.hour,
                self.minute,
                display_format(),
            ),
    {
        format_date_time(self, "%l:%M %p on %A %B %-d")
    }
}

} // verus!
