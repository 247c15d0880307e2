use silli_reminder::i18n::{
    app_header, app_title, date_picker_cancel, date_picker_hover_day_minus, date_picker_hover_day_plus,
    date_picker_hover_month_minus, date_picker_hover_month_plus, date_picker_hover_year_minus,
    date_picker_hover_year_plus, date_picker_month_name, date_picker_save, date_picker_week, date_picker_weekdays,
    date_picker_year, language_for_locale, notif_date_label, notif_prefix, notif_title, tray_exit, tray_open,
    tray_tooltip, ui_add, ui_add_button, ui_db_read_error, ui_empty, ui_no_db, ui_note_hint, ui_planned,
    ui_settings, ui_start_with_system, Language,
};
use silli_reminder::launch::{autostart_command, exits_at_start, is_autostart_launch, is_background_mode};
use silli_reminder::reminder::{parse_db_date, prepare_note, reminder_from_row, stored_level, RowError};
use silli_reminder::settings::{parse_setting, setting_text};
use silli_reminder::calendar::CalendarDate;
use silli_reminder::tray::{copy_wide_trunc, notification_kind, TrayCommand, TrayNotificationKind};
use silli_reminder::window::{WindowState, CLOSE_GRACE_FRAMES};

#[test]
fn texts_in_both_languages() {
    assert_eq!(app_title(Language::Pl), "SilliReminder");
    assert_eq!(app_header(Language::En), "SilliReminder");
    assert_eq!(tray_tooltip(Language::Pl), "SilliReminder");
    assert_eq!(ui_settings(Language::Pl), "Ustawienia");
    assert_eq!(ui_settings(Language::En), "Settings");
    assert_eq!(ui_start_with_system(Language::En), "Start with system");
    assert_eq!(ui_add(Language::Pl), "Dodaj");
    assert_eq!(ui_add_button(Language::En), "Add");
    assert_eq!(ui_note_hint(Language::Pl), "Notatka...");
    assert_eq!(ui_planned(Language::En), "Planned");
    assert_eq!(ui_no_db(Language::En), "Database unavailable");
    assert_eq!(ui_empty(Language::Pl), "(pusto)");
    assert_eq!(ui_db_read_error(Language::Pl), "Błąd odczytu bazy");
    assert_eq!(tray_open(Language::Pl), "Otwórz");
    assert_eq!(tray_exit(Language::En), "Exit");
    assert_eq!(notif_date_label(Language::Pl), "Data");
    assert_eq!(date_picker_year(Language::En), "Year:");
    assert_eq!(date_picker_week(Language::Pl), "Tydz.");
    assert_eq!(date_picker_cancel(Language::Pl), "Anuluj");
    assert_eq!(date_picker_save(Language::En), "Save");
    assert_eq!(date_picker_hover_year_minus(Language::En), "subtract 1 year");
    assert_eq!(date_picker_hover_month_minus(Language::Pl), "odejmij 1 miesiąc");
    assert_eq!(date_picker_hover_day_minus(Language::Pl), "odejmij 1 dzień");
    assert_eq!(date_picker_hover_day_plus(Language::En), "add 1 day");
    assert_eq!(date_picker_hover_month_plus(Language::En), "add 1 month");
    assert_eq!(date_picker_hover_year_plus(Language::Pl), "dodaj 1 rok");
}

#[test]
fn notification_titles() {
    assert_eq!(notif_prefix(Language::En, 1), "≤ 7 days");
    assert_eq!(notif_prefix(Language::Pl, 2), "≤ 3 dni");
    assert_eq!(notif_prefix(Language::Pl, 0), "≤ 1 dzień");
    assert_eq!(notif_title(Language::En, 3), "Reminder (≤ 1 day)");
    assert_eq!(notif_title(Language::Pl, 1), "Przypomnienie (≤ 7 dni)");
}

#[test]
fn month_and_weekday_names() {
    assert_eq!(date_picker_month_name(Language::Pl, 1), "Styczeń");
    assert_eq!(date_picker_month_name(Language::En, 12), "December");
    assert_eq!(date_picker_month_name(Language::En, 0), "?");
    assert_eq!(date_picker_month_name(Language::Pl, 13), "?");
    assert_eq!(date_picker_weekdays(Language::Pl)[2], "Śr");
    assert_eq!(date_picker_weekdays(Language::En), ["Mon", "Tue", "Wed", "Thu", "Fri", "Sat", "Sun"]);
}

#[test]
fn locale_selects_language() {
    assert_eq!(language_for_locale("pl-PL"), Language::Pl);
    assert_eq!(language_for_locale("PL"), Language::Pl);
    assert_eq!(language_for_locale("en-US"), Language::En);
    assert_eq!(language_for_locale("p"), Language::En);
    assert_eq!(language_for_locale(""), Language::En);
}

#[test]
fn severity_of_levels() {
    assert_eq!(notification_kind(1), TrayNotificationKind::Info);
    assert_eq!(notification_kind(2), TrayNotificationKind::Warning);
    assert_eq!(notification_kind(3), TrayNotificationKind::Error);
    assert_eq!(notification_kind(7), TrayNotificationKind::Error);
}

#[test]
fn rows_become_reminders() {
    let r = reminder_from_row(4, "2024-03-09", "note".to_string(), 2).unwrap();
    assert_eq!(r.id, 4);
    assert_eq!(r.date, CalendarDate::from_ymd(2024, 3, 9).unwrap());
    assert_eq!(r.note, "note");
    assert_eq!(r.notified_level, 2);
    assert_eq!(reminder_from_row(1, "2024-03-09", String::new(), -4).unwrap().notified_level, 0);
    assert_eq!(reminder_from_row(1, "2024-03-09", String::new(), 99).unwrap().notified_level, 3);
    assert_eq!(reminder_from_row(1, "09.03.2024", String::new(), 0).unwrap_err(), RowError::InvalidDate);
    assert_eq!(parse_db_date("2024-13-01"), Err(RowError::InvalidDate));
    assert_eq!(parse_db_date("2024-12-01"), Ok(CalendarDate::from_ymd(2024, 12, 1).unwrap()));
}

#[test]
fn stored_levels_are_clamped() {
    assert_eq!(stored_level(0), 0);
    assert_eq!(stored_level(3), 3);
    assert_eq!(stored_level(200), 3);
}

#[test]
fn notes_are_trimmed() {
    assert_eq!(prepare_note("  Buy milk \n"), Some("Buy milk".to_string()));
    assert_eq!(prepare_note(" \t "), None);
    assert_eq!(prepare_note(""), None);
}

#[test]
fn setting_text_round_trip() {
    assert!(parse_setting(setting_text(true)));
    assert!(!parse_setting(setting_text(false)));
    assert!(parse_setting(" TRUE\n"));
    assert!(parse_setting("True"));
    assert!(!parse_setting("yes"));
    assert!(!parse_setting(""));
    assert_eq!(setting_text(true), "1");
    assert_eq!(setting_text(false), "0");
}

#[test]
fn launch_options() {
    let args: Vec<String> = vec!["app".to_string(), "--autostart".to_string()];
    assert!(is_background_mode(&args));
    assert!(is_autostart_launch(&args));
    let bg: Vec<String> = vec!["app".to_string(), "--background".to_string()];
    assert!(is_background_mode(&bg));
    assert!(!is_autostart_launch(&bg));
    let plain: Vec<String> = vec!["app".to_string(), "--autostartx".to_string()];
    assert!(!is_background_mode(&plain));
    assert!(exits_at_start(true, false));
    assert!(!exits_at_start(true, true));
    assert!(!exits_at_start(false, false));
}

#[test]
fn autostart_entry_command() {
    assert_eq!(autostart_command("C:\\Program Files\\app.exe"), "\"C:\\Program Files\\app.exe\" --autostart");
}

#[test]
fn wide_copy_truncates_and_terminates() {
    let mut dst = [7u16; 4];
    copy_wide_trunc(&mut dst, "hello");
    assert_eq!(dst, [104, 101, 108, 0]);
    let mut roomy = [7u16; 6];
    copy_wide_trunc(&mut roomy, "hi");
    assert_eq!(roomy, [104, 105, 0, 7, 7, 7]);
    let mut empty: [u16; 0] = [];
    copy_wide_trunc(&mut empty, "x");
    let mut one = [5u16; 1];
    copy_wide_trunc(&mut one, "abc");
    assert_eq!(one, [0]);
    let mut wide = [1u16; 4];
    copy_wide_trunc(&mut wide, "Ś😀");
    assert_eq!(wide, [0x015A, 0xD83D, 0xDE00, 0]);
}

#[test]
fn window_close_goes_to_tray() {
    let mut w = WindowState::new(false);
    let a = w.on_frame(true);
    assert!(a.cancel_close && a.hide_to_tray && !a.draw_ui);
    assert!(w.background);
    w.handle_command(TrayCommand::Open);
    assert_eq!(w.ignore_close_frames, CLOSE_GRACE_FRAMES);
    let stale = w.on_frame(true);
    assert!(stale.cancel_close && !stale.hide_to_tray && stale.draw_ui);
    let quiet = w.on_frame(false);
    assert!(!quiet.cancel_close && quiet.draw_ui);
    w.handle_command(TrayCommand::Exit);
    let exit = w.on_frame(true);
    assert!(!exit.cancel_close && !exit.hide_to_tray);
    let mut hidden = WindowState::new(true);
    let b = hidden.on_frame(true);
    assert!(!b.cancel_close && !b.draw_ui);
}
