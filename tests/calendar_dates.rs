use silli_reminder::calendar::{last_day_of_month, month_weeks_monday_start, CalendarDate, MAX_DAY, MIN_DAY};

#[test]
fn day_numbers_count_from_year_one() {
    assert_eq!(CalendarDate::from_ymd(1, 1, 1).unwrap().day_number(), 1);
    assert_eq!(CalendarDate::from_ymd(1970, 1, 1).unwrap().day_number(), 719_163);
    assert_eq!(CalendarDate::from_ymd(0, 12, 31).unwrap().day_number(), 0);
    assert_eq!(CalendarDate::from_ymd(2026, 10, 19).unwrap().day_number(), 739_908);
}

#[test]
fn invalid_dates_are_rejected() {
    assert!(CalendarDate::from_ymd(2023, 2, 29).is_none());
    assert!(CalendarDate::from_ymd(2024, 2, 29).is_some());
    assert!(CalendarDate::from_ymd(2024, 13, 1).is_none());
    assert!(CalendarDate::from_ymd(2024, 4, 31).is_none());
    assert!(CalendarDate::from_ymd(2024, 0, 1).is_none());
    assert!(CalendarDate::from_ymd(400_000, 1, 1).is_none());
}

#[test]
fn day_number_range() {
    assert!(CalendarDate::from_day_number(MIN_DAY).is_some());
    assert!(CalendarDate::from_day_number(MAX_DAY).is_some());
    assert!(CalendarDate::from_day_number(MIN_DAY - 1).is_none());
    assert!(CalendarDate::from_day_number(MAX_DAY + 1).is_none());
    assert_eq!(CalendarDate::from_day_number(MIN_DAY).unwrap().to_iso_string(), "-262143-01-01");
    assert_eq!(CalendarDate::from_day_number(MAX_DAY).unwrap().to_iso_string(), "+262142-12-31");
}

#[test]
fn iso_text_round_trip() {
    let d = CalendarDate::from_ymd(2024, 3, 9).unwrap();
    assert_eq!(d.to_iso_string(), "2024-03-09");
    assert_eq!(CalendarDate::parse_iso("2024-03-09"), Some(d));
    assert_eq!(CalendarDate::parse_iso("2024-02-30"), None);
    assert_eq!(CalendarDate::parse_iso("not a date"), None);
    assert_eq!(CalendarDate::parse_iso(""), None);
}

#[test]
fn days_until_is_signed() {
    let a = CalendarDate::from_ymd(2024, 2, 27).unwrap();
    let b = CalendarDate::from_ymd(2024, 3, 1).unwrap();
    assert_eq!(a.days_until(&b), 3);
    assert_eq!(b.days_until(&a), -3);
}

#[test]
fn weekdays_from_monday() {
    assert_eq!(CalendarDate::from_ymd(1, 1, 1).unwrap().weekday_from_monday(), 0);
    assert_eq!(CalendarDate::from_ymd(2024, 9, 1).unwrap().weekday_from_monday(), 6);
    assert_eq!(CalendarDate::from_ymd(2026, 10, 19).unwrap().weekday_from_monday(), 0);
    assert_eq!(CalendarDate::from_ymd(0, 12, 31).unwrap().weekday_from_monday(), 6);
}

#[test]
fn month_lengths() {
    assert_eq!(last_day_of_month(2024, 2), 29);
    assert_eq!(last_day_of_month(2023, 2), 28);
    assert_eq!(last_day_of_month(1900, 2), 28);
    assert_eq!(last_day_of_month(2000, 2), 29);
    assert_eq!(last_day_of_month(2023, 4), 30);
    assert_eq!(last_day_of_month(2023, 12), 31);
}

#[test]
fn month_grid_weeks() {
    let weeks = month_weeks_monday_start(2024, 9);
    assert_eq!(weeks.len(), 6);
    assert_eq!(weeks[0][0], CalendarDate::from_ymd(2024, 8, 26).unwrap());
    assert_eq!(weeks[0][6], CalendarDate::from_ymd(2024, 9, 1).unwrap());
    assert_eq!(weeks[5][0], CalendarDate::from_ymd(2024, 9, 30).unwrap());
    for w in &weeks {
        assert_eq!(w.len(), 7);
        assert_eq!(w[0].weekday_from_monday(), 0);
    }
    let feb = month_weeks_monday_start(2021, 2);
    assert_eq!(feb.len(), 4);
    assert_eq!(feb[0][0], CalendarDate::from_ymd(2021, 2, 1).unwrap());
    assert_eq!(feb[3][6], CalendarDate::from_ymd(2021, 2, 28).unwrap());
}
