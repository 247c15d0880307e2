//! Dated reminders that raise escalating notifications as their due dates approach.
//!
//! The library holds the logic of the reminder utility: a calendar date model,
//! the urgency classification of a reminder, the boundary-crossing detector that
//! decides which thresholds are newly crossed, and the dispatcher that turns the
//! pending notifications into messages for a delivery sink.
pub mod calendar;
pub mod reminder;
pub mod boundary;
pub mod i18n;
pub mod tray;
pub mod scheduler;
pub mod text;
pub mod settings;
pub mod launch;
pub mod window;
pub mod picker;
