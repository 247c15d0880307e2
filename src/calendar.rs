//! Calendar dates as day numbers of the proleptic Gregorian calendar.
use vstd::arithmetic::div_mod::lemma_mod_multiples_vanish;
use vstd::prelude::*;

verus! {

/// Day number of the earliest representable date, -262143-01-01.
pub const MIN_DAY: i32 = -95746129;

/// Day number of the latest representable date, 262142-12-31.
pub const MAX_DAY: i32 = 95745399;

/// Earliest representable year.
pub const MIN_YEAR: i32 = -262143;

/// Latest representable year.
pub const MAX_YEAR: i32 = 262142;

/// Whether `year` is a leap year of the proleptic Gregorian calendar.
pub open spec fn is_leap_year(year: int) -> bool {
    year % 4 == 0 && (year % 100 != 0 || year % 400 == 0)
}

/// Number of days of month `month` (1 to 12) of `year`.
pub open spec fn days_in_month(year: int, month: int) -> int {
    if month == 2 {
        if is_leap_year(year) {
            29
        } else {
            28
        }
    } else if month == 4 || month == 6 || month == 9 || month == 11 {
        30
    } else {
        31
    }
}

/// Whether year, month and day name a representable date.
pub open spec fn is_valid_ymd(year: int, month: int, day: int) -> bool {
    &&& MIN_YEAR <= year <= MAX_YEAR
    &&& 1 <= month <= 12
    &&& 1 <= day <= days_in_month(year, month)
}

/// Days of all years before `year`, counted from January 1 of year 1.
pub open spec fn days_before_year(year: int) -> int {
    365 * (year - 1) + (year - 1) / 4 - (year - 1) / 100 + (year - 1) / 400
}

/// Days of the months of `year` before `month`.
pub open spec fn days_before_month(year: int, month: int) -> int
    decreases month,
{
    if month <= 1 {
        0
    } else {
        days_before_month(year, month - 1) + days_in_month(year, month - 1)
    }
}

/// Day number of a date given by year, month and day: January 1 of year 1 is day 1.
pub open spec fn day_number_of(year: int, month: int, day: int) -> int {
    days_before_year(year) + days_before_month(year, month) + day
}

/// The text of the date with day number `day`, as `%Y-%m-%d` writes it.
pub uninterp spec fn iso_text(day: int) -> Seq<char>;

/// The day number of the date that a text holds in the form `%Y-%m-%d`, if any.
pub uninterp spec fn iso_parse(text: Seq<char>) -> Option<int>;

/// Relies on chrono's `NaiveDate::from_ymd_opt`, which gives a date exactly for a
/// valid month and day of a year in its range, and on `num_days_from_ce`, which
/// counts days with January 1 of year 1 as day 1.
#[verifier::external_body]
fn ymd_day_number(year: i32, month: u32, day: u32) -> (r: Option<i32>)
    ensures
        r is Some <==> is_valid_ymd(year as int, month as int, day as int),
        r matches Some(n) ==> n == day_number_of(year as int, month as int, day as int),
        r matches Some(n) ==> MIN_DAY <= n <= MAX_DAY,
{
    match chrono::NaiveDate::from_ymd_opt(year, month, day) {
        Some(date) => Some(chrono::Datelike::num_days_from_ce(&date)),
        None => None,
    }
}

/// Relies on chrono's `NaiveDate::from_num_days_from_ce_opt`, which gives the date
/// of every day number in the representable range, and on the `Display` of
/// `NaiveDate`, which writes it as `%Y-%m-%d`.
#[verifier::external_body]
fn iso_text_of(days: i32) -> (r: String)
    requires
        MIN_DAY <= days <= MAX_DAY,
    ensures
        r@ == iso_text(days as int),
{
    chrono::NaiveDate::from_num_days_from_ce_opt(days).unwrap().to_string()
}

/// Relies on chrono's `NaiveDate::from_num_days_from_ce_opt`, which gives the date
/// of every day number in the representable range, and on its `year`, `month`
/// and `day`, the calendar date of that day.
#[verifier::external_body]
fn ymd_of_day_number(days: i32) -> (r: (i32, u32, u32))
    requires
        MIN_DAY <= days <= MAX_DAY,
    ensures
        is_valid_ymd(r.0 as int, r.1 as int, r.2 as int),
        day_number_of(r.0 as int, r.1 as int, r.2 as int) == days,
{
    let date = chrono::NaiveDate::from_num_days_from_ce_opt(days).unwrap();
    (chrono::Datelike::year(&date), chrono::Datelike::month(&date), chrono::Datelike::day(&date))
}

/// Relies on chrono's `NaiveDate::parse_from_str` with the format `%Y-%m-%d`, and
/// on `num_days_from_ce` for the day number of the date it reads, which lies in
/// the representable range.
#[verifier::external_body]
fn parse_iso_day(text: &str) -> (r: Option<i32>)
    ensures
        r is Some <==> iso_parse(text@) is Some,
        r matches Some(n) ==> iso_parse(text@) == Some(n as int),
        r matches Some(n) ==> MIN_DAY <= n <= MAX_DAY,
{
    match chrono::NaiveDate::parse_from_str(text, "%Y-%m-%d") {
        Ok(date) => Some(chrono::Datelike::num_days_from_ce(&date)),
        Err(_) => None,
    }
}

/// Day of the week of day number `day`, from 0 for Monday to 6 for Sunday
/// (January 1 of year 1 was a Monday).
pub open spec fn weekday_index(day: int) -> int {
    (day - 1) % 7
}

/// Day number of the Monday that starts the first week shown for a month.
pub open spec fn grid_start(year: int, month: int) -> int {
    let first = day_number_of(year, month, 1);
    first - weekday_index(first)
}

/// Day number of the last day of a month.
pub open spec fn month_last_day(year: int, month: int) -> int {
    day_number_of(year, month, days_in_month(year, month))
}

/// Number of weeks that the month view of a month shows.
pub open spec fn grid_weeks(year: int, month: int) -> int {
    (month_last_day(year, month) - grid_start(year, month)) / 7 + 1
}

/// Day number of the Monday after the last week that the month view shows.
pub open spec fn grid_end(year: int, month: int) -> int {
    grid_start(year, month) + 7 * grid_weeks(year, month)
}

/// A calendar date, held as its day number: January 1 of year 1 is day 1.
#[derive(Clone, Copy, Debug, PartialEq, Eq, Hash)]
pub struct CalendarDate {
    days: i32,
}

impl View for CalendarDate {
    type V = int;

    /// The day number of this date.
    closed spec fn view(&self) -> int {
        self.days as int
    }
}

impl CalendarDate {
    #[verifier::type_invariant]
    spec fn in_range(self) -> bool {
        MIN_DAY <= self.days <= MAX_DAY
    }

    /// The date with day number `days`, if it is representable.
    pub fn from_day_number(days: i32) -> (r: Option<CalendarDate>)
        ensures
            r is Some <==> MIN_DAY <= days <= MAX_DAY,
            r matches Some(d) ==> d@ == days,
    {
        if MIN_DAY <= days && days <= MAX_DAY {
            Some(CalendarDate { days })
        } else {
            None
        }
    }

    /// The date given by year, month and day, if it exists and is representable.
    pub fn from_ymd(year: i32, month: u32, day: u32) -> (r: Option<CalendarDate>)
        ensures
            r is Some <==> is_valid_ymd(year as int, month as int, day as int),
            r matches Some(d) ==> d@ == day_number_of(year as int, month as int, day as int),
    {
        match ymd_day_number(year, month, day) {
            Some(days) => Some(CalendarDate { days }),
            None => None,
        }
    }

    /// Reads a date written as `%Y-%m-%d`.
    pub fn parse_iso(text: &str) -> (r: Option<CalendarDate>)
        ensures
            r is Some <==> iso_parse(text@) is Some,
            r matches Some(d) ==> iso_parse(text@) == Some(d@),
    {
        match parse_iso_day(text) {
            Some(days) => Some(CalendarDate { days }),
            None => None,
        }
    }

    /// Year, month and day of this date.
    pub fn to_ymd(&self) -> (r: (i32, u32, u32))
        ensures
            is_valid_ymd(r.0 as int, r.1 as int, r.2 as int),
            day_number_of(r.0 as int, r.1 as int, r.2 as int) == self@,
    {
        proof {
            use_type_invariant(self);
        }
        ymd_of_day_number(self.days)
    }

    /// This date written as `%Y-%m-%d`, such as `2024-03-09`.
    pub fn to_iso_string(&self) -> (r: String)
        ensures
            r@ == iso_text(self@),
    {
        proof {
            use_type_invariant(self);
        }
        iso_text_of(self.days)
    }

    /// The day number of this date.
    pub fn day_number(&self) -> (r: i32)
        ensures
            r == self@,
            MIN_DAY <= r <= MAX_DAY,
    {
        proof {
            use_type_invariant(self);
        }
        self.days
    }

    /// Day of the week, from 0 for Monday to 6 for Sunday.
    pub fn weekday_from_monday(&self) -> (r: u8)
        ensures
            r == weekday_index(self@),
    {
        proof {
            use_type_invariant(self);
            lemma_mod_multiples_vanish(-13678019, self.days - MIN_DAY + 3, 7);
        }
        (((self.days as i64 - MIN_DAY as i64) + 3) % 7) as u8
    }

    /// Signed number of days from `self` to `other`.
    pub fn days_until(&self, other: &CalendarDate) -> (r: i64)
        ensures
            r == other@ - self@,
    {
        other.days as i64 - self.days as i64
    }
}

/// Number of days of month `month` of `year`.
pub fn last_day_of_month(year: i32, month: u32) -> (r: u32)
    requires
        MIN_YEAR <= year <= MAX_YEAR,
        1 <= month <= 12,
    ensures
        r == days_in_month(year as int, month as int),
{
    if ymd_day_number(year, month, 31).is_some() {
        31
    } else if ymd_day_number(year, month, 30).is_some() {
        30
    } else if ymd_day_number(year, month, 29).is_some() {
        29
    } else {
        28
    }
}

/// The weeks, Monday to Sunday, that a month view of `month` of `year` shows:
/// from the week that holds the first of the month to the week that holds its
/// last day.
pub fn month_weeks_monday_start(year: i32, month: u32) -> (weeks: Vec<Vec<CalendarDate>>)
    requires
        MIN_YEAR <= year <= MAX_YEAR,
        1 <= month <= 12,
        MIN_DAY <= grid_start(year as int, month as int),
        grid_end(year as int, month as int) <= MAX_DAY,
    ensures
        weeks.len() == grid_weeks(year as int, month as int),
        forall|i: int|
            0 <= i < weeks.len() ==> (#[trigger] weeks@[i]).len() == 7 && forall|j: int|
                0 <= j < 7 ==> (#[trigger] weeks@[i]@[j])@ == grid_start(year as int, month as int) + 7 * i + j,
{
    let first = CalendarDate::from_ymd(year, month, 1).unwrap();
    let last_day = last_day_of_month(year, month);
    let last = CalendarDate::from_ymd(year, month, last_day).unwrap();
    let ghost start = grid_start(year as int, month as int);
    let ghost last_n = month_last_day(year as int, month as int);
    let weekday = first.weekday_from_monday();
    let mut monday: i32 = first.day_number() - weekday as i32;
    let last_n_exec = last.day_number();
    assert(first@ <= last_n) by {
        assert(days_in_month(year as int, month as int) >= 28);
    }
    let mut weeks: Vec<Vec<CalendarDate>> = Vec::new();
    // Once the next Monday lies past the last day, it lies in the next month.
    while monday <= last_n_exec
        invariant
            last_n_exec == last_n,
            start <= first@ <= last_n,
            monday == start + 7 * weeks.len(),
            weeks.len() >= 1 ==> start + 7 * (weeks.len() - 1) <= last_n,
            MIN_DAY <= start,
            start + 7 * ((last_n - start) / 7 + 1) <= MAX_DAY,
            monday <= last_n + 7,
            forall|i: int|
                0 <= i < weeks.len() ==> (#[trigger] weeks@[i]).len() == 7 && forall|j: int|
                    0 <= j < 7 ==> (#[trigger] weeks@[i]@[j])@ == start + 7 * i + j,
        decreases last_n + 7 - monday,
    {
        assert(weeks.len() <= (last_n - start) / 7);
        assert(monday + 7 <= MAX_DAY);
        let mut week: Vec<CalendarDate> = Vec::new();
        let mut j: i32 = 0;
        while j < 7
            invariant
                0 <= j <= 7,
                week.len() == j,
                MIN_DAY <= monday,
                monday + 6 <= MAX_DAY,
                forall|k: int| 0 <= k < j ==> (#[trigger] week@[k])@ == monday + k,
            decreases 7 - j,
        {
            week.push(CalendarDate { days: monday + j });
            j = j + 1;
        }
        weeks.push(week);
        monday = monday + 7;
    }
    assert(weeks.len() == (last_n - start) / 7 + 1);
    weeks
}

} // verus!
