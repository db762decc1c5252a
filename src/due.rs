//! Due dates: a date alone, a floating local date and time, or a fixed UTC
//! date and time, told apart by their text.
use vstd::prelude::*;
use chrono::{Datelike, Timelike};
use crate::date::{timestamp_written, write_timestamp};
use crate::text::{ends_with_char, has_char};

verus! {

/// A day of the calendar.
#[derive(Debug, Clone, Copy, PartialEq, Eq, Structural)]
pub struct CalendarDate {
    pub year: i32,
    /// From 1 to 12.
    pub month: u32,
    /// From 1 to the length of the month.
    pub day: u32,
}

/// A time of day.
#[derive(Debug, Clone, Copy, PartialEq, Eq, Structural)]
pub struct ClockTime {
    pub hour: u32,
    pub minute: u32,
    pub second: u32,
    pub nanosecond: u32,
}

/// When an item is due.
#[derive(Debug, Clone, Copy, PartialEq, Eq, Structural)]
pub enum DueDateType {
    /// A whole day.
    Date(CalendarDate),
    /// A date and time in whatever time zone the user is in.
    Floating(CalendarDate, ClockTime),
    /// A date and time in UTC.
    Fixed(CalendarDate, ClockTime),
}

/// When an item is due, with the words it was given in.
#[derive(Debug, Clone)]
pub struct DueDate {
    /// The due date, or that of the next time for a recurring one.
    pub date: DueDateType,
    /// The time zone of a fixed due date.
    pub timezone: Option<String>,
    /// The due date in words, such as "every day".
    pub string: String,
    /// The language of `string`.
    pub lang: String,
    /// Whether the item recurs.
    pub is_recurring: bool,
}

/// The number of days in a month of the Gregorian calendar.
pub open spec fn days_in_month(year: int, month: int) -> int {
    if month == 2 {
        if (year % 4 == 0 && year % 100 != 0) || year % 400 == 0 {
            29
        } else {
            28
        }
    } else if month == 4 || month == 6 || month == 9 || month == 11 {
        30
    } else {
        31
    }
}

impl CalendarDate {
    /// Whether this is a day of the calendar, in the years 1 to 9999.
    pub open spec fn valid(self) -> bool {
        &&& 1 <= self.year <= 9999
        &&& 1 <= self.month <= 12
        &&& 1 <= self.day <= days_in_month(self.year as int, self.month as int)
    }

    /// Whether this is a day of the calendar, in the years 1 to 9999.
    pub fn is_valid(&self) -> (r: bool)
        ensures
            r == self.valid(),
    {
        if self.year < 1 || self.year > 9999 || self.month < 1 || self.month > 12 || self.day < 1 {
            return false;
        }
        let days: u32 = if self.month == 2 {
            if (self.year % 4 == 0 && self.year % 100 != 0) || self.year % 400 == 0 {
                29
            } else {
                28
            }
        } else if self.month == 4 || self.month == 6 || self.month == 9 || self.month == 11 {
            30
        } else {
            31
        };
        self.day <= days
    }
}

impl ClockTime {
    /// Whether this is a time of day, without a leap second.
    pub open spec fn valid(self) -> bool {
        &&& self.hour < 24
        &&& self.minute < 60
        &&& self.second < 60
        &&& self.nanosecond < 1_000_000_000
    }

    /// Whether this is a time of day, without a leap second.
    pub fn is_valid(&self) -> (r: bool)
        ensures
            r == self.valid(),
    {
        self.hour < 24 && self.minute < 60 && self.second < 60 && self.nanosecond < 1_000_000_000
    }
}

impl DueDateType {
    /// Whether the date, and the time if there is one, are valid.
    pub open spec fn valid(self) -> bool {
        match self {
            DueDateType::Date(d) => d.valid(),
            DueDateType::Floating(d, t) => d.valid() && t.valid(),
            DueDateType::Fixed(d, t) => d.valid() && t.valid(),
        }
    }

    /// Whether the date, and the time if there is one, are valid.
    pub fn is_valid(&self) -> (r: bool)
        ensures
            r == self.valid(),
    {
        match self {
            DueDateType::Date(d) => d.is_valid(),
            DueDateType::Floating(d, t) => d.is_valid() && t.is_valid(),
            DueDateType::Fixed(d, t) => d.is_valid() && t.is_valid(),
        }
    }
}

/// Which of the three kinds of due date a text is written as.
#[derive(Debug, Clone, Copy, PartialEq, Eq, Structural)]
pub enum DueKind {
    Date,
    Floating,
    Fixed,
}

/// The kind of due date that a text is written as: with a `T` it has a time,
/// which is in UTC when the text ends in `Z`; without a `T` it is a date alone.
pub open spec fn kind_of(s: Seq<char>) -> DueKind {
    if s.contains('T') {
        if s.len() > 0 && s.last() == 'Z' {
            DueKind::Fixed
        } else {
            DueKind::Floating
        }
    } else {
        DueKind::Date
    }
}

/// The kind of due date that a text is written as.
pub fn kind_of_text(s: &str) -> (r: DueKind)
    ensures
        r == kind_of(s@),
{
    if has_char(s, 'T') {
        if ends_with_char(s, 'Z') {
            DueKind::Fixed
        } else {
            DueKind::Floating
        }
    } else {
        DueKind::Date
    }
}

/// Why a due date's text could not be read.
#[derive(Debug, Clone)]
pub struct DateParseError {
    /// The text that was read.
    pub input: String,
}

/// The text form of a date alone.
pub open spec fn date_format() -> Seq<char> {
    "%Y-%m-%d"@
}

/// The text form of a floating date and time.
pub open spec fn floating_format() -> Seq<char> {
    "%Y-%m-%dT%H:%M:%S%.f"@
}

/// The text form of a UTC date and time.
pub open spec fn fixed_format() -> Seq<char> {
    "%Y-%m-%dT%H:%M:%S%.fZ"@
}

/// The text form that a floating date and time is written in.
pub open spec fn floating_display() -> Seq<char> {
    "%Y-%m-%dT%H:%M:%S%.6f"@
}

/// The text form that a UTC date and time is written in.
pub open spec fn fixed_display() -> Seq<char> {
    "%Y-%m-%dT%H:%M:%S%.6fZ"@
}

/// What reading a text as a date in a format gives: year, month and day, if
/// the text is such a date.
pub uninterp spec fn date_read(s: Seq<char>, fmt: Seq<char>) -> Option<(i32, u32, u32)>;

/// What reading a text as a date and time in a format gives: year, month,
/// day, hour, minute, second and nanosecond, if the text is such a date and time.
pub uninterp spec fn date_time_read(s: Seq<char>, fmt: Seq<char>) -> Option<
    (i32, u32, u32, u32, u32, u32, u32),
>;

/// Relies on `chrono::NaiveDate::parse_from_str`: the year, month and day
/// that the text names in the format, if it names one.
#[verifier::external_body]
fn read_date(s: &str, fmt: &str) -> (r: Option<(i32, u32, u32)>)
    requires
        fmt@ == date_format(),
    ensures
        r == date_read(s@, fmt@),
{
    chrono::NaiveDate::parse_from_str(s, fmt).ok().map(|d| (d.year(), d.month(), d.day()))
}

/// Relies on `chrono::NaiveDateTime::parse_from_str`: the date and time that
/// the text names in the format, if it names one. The formats allowed have no
/// `%s` field, so the parser never takes the leap-second path that can overflow.
#[verifier::external_body]
fn read_date_time(s: &str, fmt: &str) -> (r: Option<(i32, u32, u32, u32, u32, u32, u32)>)
    requires
        fmt@ == floating_format() || fmt@ == fixed_format(),
    ensures
        r == date_time_read(s@, fmt@),
{
    chrono::NaiveDateTime::parse_from_str(s, fmt).ok().map(
        |d| (d.year(), d.month(), d.day(), d.hour(), d.minute(), d.second(), d.nanosecond()),
    )
}

/// The date and time of a reading of a date and time.
pub open spec fn parts(t: (i32, u32, u32, u32, u32, u32, u32)) -> (CalendarDate, ClockTime) {
    (
        CalendarDate { year: t.0, month: t.1, day: t.2 },
        ClockTime { hour: t.3, minute: t.4, second: t.5, nanosecond: t.6 },
    )
}

/// What a due date's text names, if that is a valid due date (a date, and a
/// time without a leap second, in the years 1 to 9999). A text with a `T` has a time: one that
/// ends in `Z` is read as a UTC date and time, another as a floating one. A
/// text without a `T` is read as a date alone.
pub open spec fn due_read(s: Seq<char>) -> Option<DueDateType> {
    match due_read_raw(s) {
        Some(d) => if d.valid() {
            Some(d)
        } else {
            None
        },
        None => None,
    }
}

/// What chrono reads from a due date's text, valid or not.
pub open spec fn due_read_raw(s: Seq<char>) -> Option<DueDateType> {
    match kind_of(s) {
        DueKind::Fixed => match date_time_read(s, fixed_format()) {
            Some(t) => Some(DueDateType::Fixed(parts(t).0, parts(t).1)),
            None => None,
        },
        DueKind::Floating => match date_time_read(s, floating_format()) {
            Some(t) => Some(DueDateType::Floating(parts(t).0, parts(t).1)),
            None => None,
        },
        DueKind::Date => match date_read(s, date_format()) {
            Some(t) => Some(DueDateType::Date(CalendarDate { year: t.0, month: t.1, day: t.2 })),
            None => None,
        },
    }
}

impl DueDateType {
    /// The text that a due date is written as: `YYYY-MM-DD` for a date alone,
    /// with `THH:MM:SS.ffffff` added for a time, and `Z` after a UTC time.
    pub open spec fn text(self) -> Seq<char> {
        match self {
            DueDateType::Date(d) => timestamp_written(d.year, d.month, d.day, 0, 0, 0, 0, 0, date_format()),
            DueDateType::Floating(d, t) => timestamp_written(
                d.year,
                d.month,
                d.day,
                t.hour,
                t.minute,
                t.second,
                t.nanosecond,
                0,
                floating_display(),
            ),
            DueDateType::Fixed(d, t) => timestamp_written(
                d.year,
                d.month,
                d.day,
                t.hour,
                t.minute,
                t.second,
                t.nanosecond,
                0,
                fixed_display(),
            ),
        }
    }

    /// Reads a due date from its text; which of the three kinds it is follows
    /// from whether the text has a time (a `T`) and whether it ends in `Z`.
    pub fn parse(s: &str) -> (r: Result<DueDateType, DateParseError>)
        ensures
            match due_read(s@) {
                Some(d) => r == Ok::<DueDateType, DateParseError>(d),
                None => (r matches Err(e) && e.input@ == s@),
            },
    {
        let read = match kind_of_text(s) {
            DueKind::Fixed => match read_date_time(s, "%Y-%m-%dT%H:%M:%S%.fZ") {
                Some(t) => Some(
                    DueDateType::Fixed(
                        CalendarDate { year: t.0, month: t.1, day: t.2 },
                        ClockTime { hour: t.3, minute: t.4, second: t.5, nanosecond: t.6 },
                    ),
                ),
                None => None,
            },
            DueKind::Floating => match read_date_time(s, "%Y-%m-%dT%H:%M:%S%.f") {
                Some(t) => Some(
                    DueDateType::Floating(
                        CalendarDate { year: t.0, month: t.1, day: t.2 },
                        ClockTime { hour: t.3, minute: t.4, second: t.5, nanosecond: t.6 },
                    ),
                ),
                None => None,
            },
            DueKind::Date => match read_date(s, "%Y-%m-%d") {
                Some(t) => Some(DueDateType::Date(CalendarDate { year: t.0, month: t.1, day: t.2 })),
                None => None,
            },
        };
        match read {
            Some(d) => if d.is_valid() {
                Ok(d)
            } else {
                Err(DateParseError { input: s.to_string() })
            },
            None => Err(DateParseError { input: s.to_string() }),
        }
    }

    /// The text that the due date is written as.
    pub fn to_text(&self) -> (r: String)
        requires
            self.valid(),
        ensures
            r@ == self.text(),
    {
        match self {
            DueDateType::Date(d) => write_timestamp(
                *d,
                ClockTime { hour: 0, minute: 0, second: 0, nanosecond: 0 },
                0,
                "%Y-%m-%d",
            ),
            DueDateType::Floating(d, t) => write_timestamp(*d, *t, 0, "%Y-%m-%dT%H:%M:%S%.6f"),
            DueDateType::Fixed(d, t) => write_timestamp(*d, *t, 0, "%Y-%m-%dT%H:%M:%S%.6fZ"),
        }
    }
}

} // verus!
