use todoist::due::kind_of_text;
use todoist::{CalendarDate, ClockTime, DueDateType, DueKind};

fn date(year: i32, month: u32, day: u32) -> CalendarDate {
    CalendarDate { year, month, day }
}

fn time(hour: u32, minute: u32, second: u32) -> ClockTime {
    ClockTime { hour, minute, second, nanosecond: 0 }
}

#[test]
fn parse_due_dates() {
    assert_eq!(DueDateType::parse("2022-08-28").unwrap(), DueDateType::Date(date(2022, 8, 28)));
    assert_eq!(
        DueDateType::parse("2022-08-28T14:06:29.000000").unwrap(),
        DueDateType::Floating(date(2022, 8, 28), time(14, 6, 29))
    );
    assert_eq!(
        DueDateType::parse("2022-08-28T14:06:29.000000Z").unwrap(),
        DueDateType::Fixed(date(2022, 8, 28), time(14, 6, 29))
    );
}

#[test]
fn deserialize_due_dates() {
    for s in ["2016-12-01", "2016-12-06T12:00:00.000000", "2016-12-06T13:00:00.000000Z"] {
        assert_eq!(DueDateType::parse(s).unwrap().to_text(), s);
    }
}

#[test]
fn due_date_kinds() {
    assert_eq!(kind_of_text("2016-12-01"), DueKind::Date);
    assert_eq!(kind_of_text("2016-12-06T12:00:00.000000"), DueKind::Floating);
    assert_eq!(kind_of_text("2016-12-06T13:00:00.000000Z"), DueKind::Fixed);
    assert_eq!(kind_of_text(""), DueKind::Date);
    assert_eq!(kind_of_text("Z"), DueKind::Date);
    assert!(matches!(DueDateType::parse("2016-12-06T13:00:00.000000Z").unwrap(), DueDateType::Fixed(..)));
}

#[test]
fn due_date_errors() {
    let e = DueDateType::parse("tomorrow").unwrap_err();
    assert_eq!(e.input, "tomorrow");
    assert!(DueDateType::parse("2016-13-01").is_err());
    assert!(DueDateType::parse("2016-12-06T25:00:00.000000").is_err());
}

#[test]
fn due_date_display() {
    assert_eq!(DueDateType::Date(date(2016, 1, 2)).to_text(), "2016-01-02");
    assert_eq!(
        DueDateType::Floating(date(2016, 1, 2), time(3, 4, 5)).to_text(),
        "2016-01-02T03:04:05.000000"
    );
    assert_eq!(
        DueDateType::Fixed(date(2016, 1, 2), time(3, 4, 5)).to_text(),
        "2016-01-02T03:04:05.000000Z"
    );
}

#[test]
fn due_date_validity() {
    assert!(DueDateType::parse("2016-12-06T23:59:60.000000").is_err());
    assert!(DueDateType::Date(date(2016, 2, 30)).is_valid() == false);
    assert!(DueDateType::Fixed(date(2016, 2, 29), time(23, 59, 59)).is_valid());
}
