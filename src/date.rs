//! Timestamps in the legacy wire form `Dow DD Mon YYYY HH:MM:SS +ZZZZ`.
use vstd::prelude::*;
use chrono::{Datelike, TimeZone, Timelike};
use crate::due::{CalendarDate, ClockTime, DateParseError};
use crate::json::{json_quoted, null_text, push_str};

verus! {

/// The date of a reading of a timestamp.
pub open spec fn stamp_date(t: (i32, u32, u32, u32, u32, u32, u32, i32)) -> CalendarDate {
    CalendarDate { year: t.0, month: t.1, day: t.2 }
}

/// The time of a reading of a timestamp.
pub open spec fn stamp_time(t: (i32, u32, u32, u32, u32, u32, u32, i32)) -> ClockTime {
    ClockTime { hour: t.3, minute: t.4, second: t.5, nanosecond: t.6 }
}

/// Whether an offset from UTC, in seconds, is less than a day either way.
pub open spec fn valid_offset(offset: i32) -> bool {
    -86400 < offset < 86400
}

/// A date and time at a fixed offset from UTC; the date, the time and the
/// offset are always valid.
#[derive(Debug, Clone, Copy, PartialEq, Eq, Structural)]
pub struct Date {
    date: CalendarDate,
    time: ClockTime,
    /// Seconds east of UTC.
    offset: i32,
}

/// The wire form: weekday, day, month, year, time and offset.
pub open spec fn timestamp_format() -> Seq<char> {
    "%a %d %b %Y %X %z"@
}

/// What reading a text as a timestamp in a format gives: year, month, day,
/// hour, minute, second, nanosecond and the offset in seconds east of UTC.
pub uninterp spec fn timestamp_read(s: Seq<char>, fmt: Seq<char>) -> Option<
    (i32, u32, u32, u32, u32, u32, u32, i32),
>;

/// The text of a timestamp in a format.
pub uninterp spec fn timestamp_written(
    year: i32,
    month: u32,
    day: u32,
    hour: u32,
    minute: u32,
    second: u32,
    nanosecond: u32,
    offset: i32,
    fmt: Seq<char>,
) -> Seq<char>;

/// Relies on `chrono::DateTime::parse_from_str`: the local date and time and
/// the offset that the text names in the format, if it names one. The format
/// is the wire form, which has no `%s` field, so the parser never takes the
/// leap-second path that can overflow.
#[verifier::external_body]
fn read_timestamp(s: &str, fmt: &str) -> (r: Option<(i32, u32, u32, u32, u32, u32, u32, i32)>)
    requires
        fmt@ == timestamp_format(),
    ensures
        r == timestamp_read(s@, fmt@),
{
    chrono::DateTime::parse_from_str(s, fmt).ok().map(|t| {
        let n = t.naive_local();
        (n.year(), n.month(), n.day(), n.hour(), n.minute(), n.second(), n.nanosecond(), t.offset().local_minus_utc())
    })
}

/// Relies on `chrono::DateTime::format`, with the value built by
/// `NaiveDate::from_ymd_opt`, `and_hms_nano_opt`, `FixedOffset::east_opt`
/// and `from_local_datetime`: the timestamp written in the format. On valid
/// values each of those steps succeeds (a year from 1 to 9999 stays far from
/// chrono's limits, even shifted by the offset), so the `None` arm that gives
/// the empty string is never taken. The format is one of the library's own,
/// whose specifiers chrono all knows, so writing it cannot fail.
#[verifier::external_body]
pub(crate) fn write_timestamp(d: CalendarDate, t: ClockTime, offset: i32, fmt: &str) -> (r: String)
    requires
        d.valid(),
        t.valid(),
        valid_offset(offset),
        fmt@ == timestamp_format() || fmt@ == crate::due::date_format() || fmt@
            == crate::due::floating_display() || fmt@ == crate::due::fixed_display(),
    ensures
        r@ == timestamp_written(d.year, d.month, d.day, t.hour, t.minute, t.second, t.nanosecond, offset, fmt@),
{
    chrono::NaiveDate::from_ymd_opt(d.year, d.month, d.day)
        .and_then(|x| x.and_hms_nano_opt(t.hour, t.minute, t.second, t.nanosecond))
        .and_then(|n| chrono::FixedOffset::east_opt(offset).and_then(|o| o.from_local_datetime(&n).single()))
        .map(|x| x.format(fmt).to_string())
        .unwrap_or_default()
}

impl Date {
    #[verifier::type_invariant]
    spec fn inv(self) -> bool {
        self.date.valid() && self.time.valid() && valid_offset(self.offset)
    }

    /// The date, in the zone of the offset.
    pub closed spec fn date_view(self) -> CalendarDate {
        self.date
    }

    /// The time of day, in the zone of the offset.
    pub closed spec fn time_view(self) -> ClockTime {
        self.time
    }

    /// Seconds east of UTC.
    pub closed spec fn offset_view(self) -> i32 {
        self.offset
    }

    /// The date, in the zone of the offset.
    pub fn date(&self) -> (r: CalendarDate)
        ensures
            r == self.date_view(),
            r.valid(),
    {
        proof {
            use_type_invariant(self);
        }
        self.date
    }

    /// The time of day, in the zone of the offset.
    pub fn time(&self) -> (r: ClockTime)
        ensures
            r == self.time_view(),
            r.valid(),
    {
        proof {
            use_type_invariant(self);
        }
        self.time
    }

    /// Seconds east of UTC.
    pub fn offset(&self) -> (r: i32)
        ensures
            r == self.offset_view(),
            valid_offset(r),
    {
        proof {
            use_type_invariant(self);
        }
        self.offset
    }

    /// A timestamp from its parts, or `None` when one of them is not valid.
    pub fn new(date: CalendarDate, time: ClockTime, offset: i32) -> (r: Option<Date>)
        ensures
            r is Some <==> date.valid() && time.valid() && valid_offset(offset),
            r matches Some(d) ==> d.date_view() == date && d.time_view() == time && d.offset_view()
                == offset,
    {
        if date.is_valid() && time.is_valid() && -86400 < offset && offset < 86400 {
            Some(Date { date, time, offset })
        } else {
            None
        }
    }

    /// The text of the timestamp in a format.
    pub open spec fn text_in(self, fmt: Seq<char>) -> Seq<char> {
        timestamp_written(
            self.date_view().year,
            self.date_view().month,
            self.date_view().day,
            self.time_view().hour,
            self.time_view().minute,
            self.time_view().second,
            self.time_view().nanosecond,
            self.offset_view(),
            fmt,
        )
    }

    /// The text that the timestamp is sent as.
    pub open spec fn text(self) -> Seq<char> {
        self.text_in(timestamp_format())
    }

    /// Reads a timestamp from its wire form. A text that chrono reads but
    /// whose parts are not valid (a year past 9999, a leap second) is an error.
    pub fn parse(s: &str) -> (r: Result<Date, DateParseError>)
        ensures
            match timestamp_read(s@, timestamp_format()) {
                Some(t) => if stamp_date(t).valid() && stamp_time(t).valid() && valid_offset(t.7) {
                    (r matches Ok(d) && d.date_view() == stamp_date(t) && d.time_view() == stamp_time(t)
                        && d.offset_view() == t.7)
                } else {
                    (r matches Err(e) && e.input@ == s@)
                },
                None => (r matches Err(e) && e.input@ == s@),
            },
    {
        match read_timestamp(s, "%a %d %b %Y %X %z") {
            Some(t) => {
                let date = CalendarDate { year: t.0, month: t.1, day: t.2 };
                let time = ClockTime { hour: t.3, minute: t.4, second: t.5, nanosecond: t.6 };
                match Date::new(date, time, t.7) {
                    Some(d) => Ok(d),
                    None => Err(DateParseError { input: s.to_string() }),
                }
            },
            None => Err(DateParseError { input: s.to_string() }),
        }
    }

    /// The text that the timestamp is sent as.
    pub fn to_text(&self) -> (r: String)
        ensures
            r@ == self.text(),
    {
        proof {
            use_type_invariant(self);
        }
        write_timestamp(self.date, self.time, self.offset, "%a %d %b %Y %X %z")
    }
}

impl Default for Date {
    /// The start of 1970 in UTC.
    fn default() -> (r: Date)
        ensures
            r.date_view() == (CalendarDate { year: 1970, month: 1, day: 1 }),
            r.time_view() == (ClockTime { hour: 0, minute: 0, second: 0, nanosecond: 0 }),
            r.offset_view() == 0,
    {
        Date {
            date: CalendarDate { year: 1970, month: 1, day: 1 },
            time: ClockTime { hour: 0, minute: 0, second: 0, nanosecond: 0 },
            offset: 0,
        }
    }
}

/// An optional timestamp as a JSON string, or `null`.
pub open spec fn opt_date_text(o: Option<Date>) -> Seq<char> {
    match o {
        Some(d) => json_quoted(d.text()),
        None => null_text(),
    }
}

/// Appends an optional timestamp as a JSON string.
pub fn push_opt_date(out: &mut String, o: &Option<Date>)
    ensures
        final(out)@ == old(out)@ + opt_date_text(*o),
{
    match o {
        Some(d) => {
            let t = d.to_text();
            push_str(out, t.as_str());
        },
        None => out.append("null"),
    }
}

} // verus!
