use todoist::{CalendarDate, ClockTime, Date};

#[test]
fn date_default_text() {
    assert_eq!(Date::default().to_text(), "Thu 01 Jan 1970 00:00:00 +0000");
}

#[test]
fn date_parse_round_trip() {
    let s = "Tue 06 Dec 2016 13:00:00 +0100";
    let d = Date::parse(s).unwrap();
    assert_eq!(d.date(), CalendarDate { year: 2016, month: 12, day: 6 });
    assert_eq!(d.time(), ClockTime { hour: 13, minute: 0, second: 0, nanosecond: 0 });
    assert_eq!(d.offset(), 3600);
    assert_eq!(d.to_text(), s);
}

#[test]
fn date_parse_error() {
    let e = Date::parse("2016-12-06").unwrap_err();
    assert_eq!(e.input, "2016-12-06");
}

#[test]
fn date_new_checks_parts() {
    let t = ClockTime { hour: 1, minute: 2, second: 3, nanosecond: 0 };
    assert!(Date::new(CalendarDate { year: 2016, month: 13, day: 1 }, t, 0).is_none());
    assert!(Date::new(CalendarDate { year: 2015, month: 2, day: 29 }, t, 0).is_none());
    assert!(Date::new(CalendarDate { year: 2016, month: 2, day: 29 }, t, 0).is_some());
    assert!(Date::new(CalendarDate { year: 2016, month: 2, day: 1 }, ClockTime { hour: 24, minute: 0, second: 0, nanosecond: 0 }, 0).is_none());
    assert!(Date::new(CalendarDate { year: 2016, month: 2, day: 1 }, t, 86400).is_none());
    let d = Date::new(CalendarDate { year: 2016, month: 2, day: 29 }, t, -7200).unwrap();
    assert_eq!(d.to_text(), "Mon 29 Feb 2016 01:02:03 -0200");
}
