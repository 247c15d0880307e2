//! Stored reminders and the values that the scheduler hands to the store.
use vstd::prelude::*;

use crate::calendar::{iso_parse, CalendarDate};
use crate::text::{trim_text, trimmed};

verus! {

/// Highest urgency level; a persisted level above it is read as this level.
pub const MAX_LEVEL: u8 = 3;

/// A reminder as the store lists it.
#[derive(Clone, Debug)]
pub struct Reminder {
    /// Identifier assigned by the store.
    pub id: i64,
    /// Due date.
    pub date: CalendarDate,
    /// Free text of the reminder.
    pub note: String,
    /// Highest urgency level announced so far.
    pub notified_level: u8,
}

/// A level that the store is asked to persist for one reminder.
#[derive(Clone, Copy, Debug, PartialEq, Eq)]
pub struct LevelUpdate {
    /// Identifier of the reminder.
    pub id: i64,
    /// New value of its `notified_level`.
    pub level: u8,
}

/// The announced level of a persisted value, clamped to `0..=3`.
pub open spec fn clamp_level(level: int) -> int {
    if level < 0 {
        0
    } else if level > MAX_LEVEL {
        MAX_LEVEL as int
    } else {
        level
    }
}

/// Why a stored row could not be read as a reminder.
#[derive(Debug, Clone, Copy, PartialEq, Eq, Structural)]
pub enum RowError {
    /// The due date is not a date written as `%Y-%m-%d`.
    InvalidDate,
}

/// Reads a due date as the store writes it, `%Y-%m-%d`.
pub fn parse_db_date(date_str: &str) -> (r: Result<CalendarDate, RowError>)
    ensures
        r is Ok <==> iso_parse(date_str@) is Some,
        r matches Ok(d) ==> iso_parse(date_str@) == Some(d@),
        r matches Err(e) ==> e == RowError::InvalidDate,
{
    match CalendarDate::parse_iso(date_str) {
        Some(d) => Ok(d),
        None => Err(RowError::InvalidDate),
    }
}

/// Builds a reminder from the columns of a stored row; an out-of-range
/// persisted level is clamped to `0..=3`.
pub fn reminder_from_row(id: i64, date_str: &str, note: String, notified_level: i64) -> (r: Result<Reminder, RowError>)
    ensures
        r is Ok <==> iso_parse(date_str@) is Some,
        r matches Ok(x) ==> {
            &&& x.id == id
            &&& iso_parse(date_str@) == Some(x.date@)
            &&& x.note == note
            &&& x.notified_level == clamp_level(notified_level as int)
        },
        r matches Err(e) ==> e == RowError::InvalidDate,
{
    let date = match parse_db_date(date_str) {
        Ok(d) => d,
        Err(e) => return Err(e),
    };
    let level: u8 = if notified_level < 0 {
        0
    } else if notified_level > MAX_LEVEL as i64 {
        MAX_LEVEL
    } else {
        notified_level as u8
    };
    Ok(Reminder { id, date, note, notified_level: level })
}

/// The value written to the store for an announced level, clamped to `0..=3`.
pub fn stored_level(notified_level: u8) -> (r: i64)
    ensures
        r == clamp_level(notified_level as int),
{
    if notified_level > MAX_LEVEL {
        MAX_LEVEL as i64
    } else {
        notified_level as i64
    }
}

/// The note to store for what the user typed: the text without surrounding
/// white space, or nothing when only white space is left.
pub fn prepare_note(input: &str) -> (r: Option<String>)
    ensures
        r is Some <==> trimmed(input@).len() > 0,
        r matches Some(n) ==> n@ == trimmed(input@),
{
    let note = trim_text(input);
    if note.unicode_len() == 0 {
        None
    } else {
        Some(String::from_str(note))
    }
}

} // verus!
