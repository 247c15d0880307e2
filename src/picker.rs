//! The fields of the date picker and the arrows that step them.
use vstd::prelude::*;

use crate::calendar::{
    day_number_of, days_before_month, days_before_year, days_in_month, is_leap_year, is_valid_ymd, last_day_of_month,
    CalendarDate, MAX_YEAR, MIN_YEAR,
};

verus! {

/// Year, month and day as the date picker holds them while the user edits.
#[derive(Debug, Clone, Copy, PartialEq, Eq, Structural)]
pub struct PickerFields {
    pub year: i32,
    pub month: u32,
    pub day: u32,
}

/// An arrow of the date picker.
#[derive(Debug, Clone, Copy, PartialEq, Eq, Structural)]
pub enum PickerStep {
    YearBack,
    MonthBack,
    DayBack,
    DayForward,
    MonthForward,
    YearForward,
}

/// Whether the fields name a date whose neighbouring years are representable too.
pub open spec fn steppable(f: PickerFields) -> bool {
    &&& MIN_YEAR < f.year < MAX_YEAR
    &&& is_valid_ymd(f.year as int, f.month as int, f.day as int)
}

/// `day`, or the last day of the month where it is past it.
pub open spec fn clamped_day(year: int, month: int, day: int) -> int {
    if day <= days_in_month(year, month) {
        day
    } else {
        days_in_month(year, month)
    }
}

/// The fields after arrow `s`: a year or month arrow keeps the day where the
/// new month has it and takes its last day otherwise; a day arrow moves to the
/// neighbouring day, across month and year ends.
pub open spec fn stepped(f: PickerFields, s: PickerStep) -> PickerFields {
    let y = f.year as int;
    let m = f.month as int;
    let d = f.day as int;
    let (ny, nm, nd) = match s {
        PickerStep::YearBack => (y - 1, m, clamped_day(y - 1, m, d)),
        PickerStep::YearForward => (y + 1, m, clamped_day(y + 1, m, d)),
        PickerStep::MonthBack => if m == 1 {
            (y - 1, 12, clamped_day(y - 1, 12, d))
        } else {
            (y, m - 1, clamped_day(y, m - 1, d))
        },
        PickerStep::MonthForward => if m == 12 {
            (y + 1, 1, clamped_day(y + 1, 1, d))
        } else {
            (y, m + 1, clamped_day(y, m + 1, d))
        },
        PickerStep::DayBack => if d > 1 {
            (y, m, d - 1)
        } else if m == 1 {
            (y - 1, 12, 31)
        } else {
            (y, m - 1, days_in_month(y, m - 1))
        },
        PickerStep::DayForward => if d < days_in_month(y, m) {
            (y, m, d + 1)
        } else if m == 12 {
            (y + 1, 1, 1)
        } else {
            (y, m + 1, 1)
        },
    };
    PickerFields { year: ny as i32, month: nm as u32, day: nd as u32 }
}

/// `day`, or the last day of month `month` of `year` where it is past it.
pub fn clamp_day(year: i32, month: u32, day: u32) -> (r: u32)
    requires
        MIN_YEAR <= year <= MAX_YEAR,
        1 <= month <= 12,
    ensures
        r == clamped_day(year as int, month as int, day as int),
{
    let last = last_day_of_month(year, month);
    if day <= last {
        day
    } else {
        last
    }
}

/// The fields of a date.
pub fn fields_of(date: &CalendarDate) -> (f: PickerFields)
    ensures
        is_valid_ymd(f.year as int, f.month as int, f.day as int),
        day_number_of(f.year as int, f.month as int, f.day as int) == date@,
{
    let (year, month, day) = date.to_ymd();
    PickerFields { year, month, day }
}

/// Applies arrow `s` to the fields.
pub fn step_fields(f: PickerFields, s: PickerStep) -> (r: PickerFields)
    requires
        steppable(f),
    ensures
        r == stepped(f, s),
        is_valid_ymd(r.year as int, r.month as int, r.day as int),
{
    match s {
        PickerStep::YearBack => {
            let year = f.year - 1;
            PickerFields { year, month: f.month, day: clamp_day(year, f.month, f.day) }
        },
        PickerStep::YearForward => {
            let year = f.year + 1;
            PickerFields { year, month: f.month, day: clamp_day(year, f.month, f.day) }
        },
        PickerStep::MonthBack => {
            let (year, month) = if f.month == 1 { (f.year - 1, 12) } else { (f.year, f.month - 1) };
            PickerFields { year, month, day: clamp_day(year, month, f.day) }
        },
        PickerStep::MonthForward => {
            let (year, month) = if f.month == 12 { (f.year + 1, 1) } else { (f.year, f.month + 1) };
            PickerFields { year, month, day: clamp_day(year, month, f.day) }
        },
        PickerStep::DayBack => {
            if f.day > 1 {
                PickerFields { year: f.year, month: f.month, day: f.day - 1 }
            } else {
                let (year, month) = if f.month == 1 { (f.year - 1, 12) } else { (f.year, f.month - 1) };
                PickerFields { year, month, day: last_day_of_month(year, month) }
            }
        },
        PickerStep::DayForward => {
            if f.day < last_day_of_month(f.year, f.month) {
                PickerFields { year: f.year, month: f.month, day: f.day + 1 }
            } else if f.month == 12 {
                PickerFields { year: f.year + 1, month: 1, day: 1 }
            } else {
                PickerFields { year: f.year, month: f.month + 1, day: 1 }
            }
        },
    }
}

/// The date that the fields name, once the user saves them.
pub fn date_of_fields(f: PickerFields) -> (r: Option<CalendarDate>)
    ensures
        r is Some <==> is_valid_ymd(f.year as int, f.month as int, f.day as int),
        r matches Some(d) ==> d@ == day_number_of(f.year as int, f.month as int, f.day as int),
{
    CalendarDate::from_ymd(f.year, f.month, f.day)
}

/// A year has 365 days, 366 in a leap year.
proof fn lemma_year_length(y: int)
    ensures
        days_before_year(y + 1) - days_before_year(y) == if is_leap_year(y) {
            366int
        } else {
            365int
        },
        days_before_month(y, 12) + 31 == if is_leap_year(y) {
            366int
        } else {
            365int
        },
{
    reveal_with_fuel(days_before_month, 12);
}

/// The day arrows move the picked date by exactly one day.
pub proof fn lemma_day_arrows_move_one_day(f: PickerFields)
    requires
        steppable(f),
    ensures
        day_number_of(
            stepped(f, PickerStep::DayForward).year as int,
            stepped(f, PickerStep::DayForward).month as int,
            stepped(f, PickerStep::DayForward).day as int,
        ) == day_number_of(f.year as int, f.month as int, f.day as int) + 1,
        day_number_of(
            stepped(f, PickerStep::DayBack).year as int,
            stepped(f, PickerStep::DayBack).month as int,
            stepped(f, PickerStep::DayBack).day as int,
        ) == day_number_of(f.year as int, f.month as int, f.day as int) - 1,
{
    lemma_year_length(f.year as int);
    lemma_year_length(f.year - 1);
    assert(days_before_month(f.year as int, f.month + 1) == days_before_month(f.year as int, f.month as int)
        + days_in_month(f.year as int, f.month as int));
    assert(f.month > 1 ==> days_before_month(f.year as int, f.month as int) == days_before_month(
        f.year as int,
        f.month - 1,
    ) + days_in_month(f.year as int, f.month - 1));
}

} // verus!
