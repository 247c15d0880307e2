use silli_reminder::calendar::CalendarDate;
use silli_reminder::picker::{clamp_day, date_of_fields, fields_of, step_fields, PickerFields, PickerStep};

fn f(year: i32, month: u32, day: u32) -> PickerFields {
    PickerFields { year, month, day }
}

#[test]
fn fields_of_a_date() {
    let d = CalendarDate::from_ymd(2024, 2, 29).unwrap();
    assert_eq!(fields_of(&d), f(2024, 2, 29));
    assert_eq!(d.to_ymd(), (2024, 2, 29));
    assert_eq!(CalendarDate::from_day_number(1).unwrap().to_ymd(), (1, 1, 1));
    assert_eq!(CalendarDate::from_day_number(0).unwrap().to_ymd(), (0, 12, 31));
}

#[test]
fn day_clamped_to_month_end() {
    assert_eq!(clamp_day(2023, 2, 31), 28);
    assert_eq!(clamp_day(2024, 2, 30), 29);
    assert_eq!(clamp_day(2024, 4, 31), 30);
    assert_eq!(clamp_day(2024, 5, 17), 17);
}

#[test]
fn year_and_month_arrows_keep_the_day_where_they_can() {
    assert_eq!(step_fields(f(2024, 2, 29), PickerStep::YearBack), f(2023, 2, 28));
    assert_eq!(step_fields(f(2024, 2, 29), PickerStep::YearForward), f(2025, 2, 28));
    assert_eq!(step_fields(f(2024, 3, 31), PickerStep::MonthBack), f(2024, 2, 29));
    assert_eq!(step_fields(f(2024, 1, 15), PickerStep::MonthBack), f(2023, 12, 15));
    assert_eq!(step_fields(f(2024, 1, 31), PickerStep::MonthForward), f(2024, 2, 29));
    assert_eq!(step_fields(f(2024, 12, 31), PickerStep::MonthForward), f(2025, 1, 31));
}

#[test]
fn day_arrows_cross_month_and_year_ends() {
    assert_eq!(step_fields(f(2024, 3, 1), PickerStep::DayBack), f(2024, 2, 29));
    assert_eq!(step_fields(f(2024, 1, 1), PickerStep::DayBack), f(2023, 12, 31));
    assert_eq!(step_fields(f(2024, 5, 9), PickerStep::DayBack), f(2024, 5, 8));
    assert_eq!(step_fields(f(2024, 2, 29), PickerStep::DayForward), f(2024, 3, 1));
    assert_eq!(step_fields(f(2023, 12, 31), PickerStep::DayForward), f(2024, 1, 1));
    assert_eq!(step_fields(f(2024, 5, 9), PickerStep::DayForward), f(2024, 5, 10));
}

#[test]
fn day_arrows_move_one_day_number() {
    for start in [f(2024, 2, 28), f(2024, 2, 29), f(2023, 12, 31), f(2000, 3, 1), f(1900, 3, 1)] {
        let here = date_of_fields(start).unwrap().day_number();
        let next = date_of_fields(step_fields(start, PickerStep::DayForward)).unwrap().day_number();
        let prev = date_of_fields(step_fields(start, PickerStep::DayBack)).unwrap().day_number();
        assert_eq!(next, here + 1);
        assert_eq!(prev, here - 1);
    }
}

#[test]
fn saved_fields_become_a_date() {
    assert_eq!(date_of_fields(f(2024, 3, 9)), CalendarDate::from_ymd(2024, 3, 9));
    assert_eq!(date_of_fields(f(2023, 2, 29)), None);
}
