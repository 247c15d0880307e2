//! User-visible texts in the two supported languages.
use vstd::prelude::*;

verus! {

/// Language of the user interface.
#[derive(Debug, Clone, Copy, PartialEq, Eq, Structural)]
pub enum Language {
    Pl,
    En,
}

/// Whether a locale name (such as `pl-PL`) selects Polish: it starts with
/// `pl`, in any letter case.
pub open spec fn is_polish_locale(locale: Seq<char>) -> bool {
    &&& locale.len() >= 2
    &&& (locale[0] == 'p' || locale[0] == 'P')
    &&& (locale[1] == 'l' || locale[1] == 'L')
}

/// The interface language for a locale name: Polish for a `pl` locale,
/// English otherwise.
pub fn language_for_locale(locale: &str) -> (r: Language)
    ensures
        r == (if is_polish_locale(locale@) {
            Language::Pl
        } else {
            Language::En
        }),
{
    if locale.unicode_len() < 2 {
        return Language::En;
    }
    let first = locale.get_char(0);
    let second = locale.get_char(1);
    if (first == 'p' || first == 'P') && (second == 'l' || second == 'L') {
        Language::Pl
    } else {
        Language::En
    }
}

/// Relies on `sys_locale::get_locale`: the locale of the running system, when
/// it can be read. Nothing is known of it in advance.
#[verifier::external_body]
fn system_locale() -> (r: Option<String>) {
    sys_locale::get_locale()
}

/// The interface language of the running system; English where no locale can be read.
pub fn detect_language() -> (r: Language) {
    match system_locale() {
        Some(locale) => language_for_locale(locale.as_str()),
        None => Language::En,
    }
}

/// Application title.
pub fn app_title(_lang: Language) -> (r: &'static str)
    ensures
        r@ == "SilliReminder"@,
{
    "SilliReminder"
}

/// Header shown above the main window.
pub fn app_header(_lang: Language) -> (r: &'static str)
    ensures
        r@ == "SilliReminder"@,
{
    "SilliReminder"
}

/// Caption of the settings section.
pub fn ui_settings(lang: Language) -> (r: &'static str)
    ensures
        r@ == (match lang {
            Language::Pl => "Ustawienia"@,
            Language::En => "Settings"@,
        }),
{
    match lang {
        Language::Pl => "Ustawienia",
        Language::En => "Settings",
    }
}

/// Label of the start-with-system checkbox.
pub fn ui_start_with_system(lang: Language) -> (r: &'static str)
    ensures
        r@ == (match lang {
            Language::Pl => "Włącz podczas włączania systemu"@,
            Language::En => "Start with system"@,
        }),
{
    match lang {
        Language::Pl => "Włącz podczas włączania systemu",
        Language::En => "Start with system",
    }
}

/// Caption of the section that adds a reminder.
pub fn ui_add(lang: Language) -> (r: &'static str)
    ensures
        r@ == (match lang {
            Language::Pl => "Dodaj"@,
            Language::En => "Add"@,
        }),
{
    match lang {
        Language::Pl => "Dodaj",
        Language::En => "Add",
    }
}

/// Label of the button that adds a reminder.
pub fn ui_add_button(lang: Language) -> (r: &'static str)
    ensures
        r@ == (match lang {
            Language::Pl => "Dodaj"@,
            Language::En => "Add"@,
        }),
{
    match lang {
        Language::Pl => "Dodaj",
        Language::En => "Add",
    }
}

/// Hint shown in the empty note field.
pub fn ui_note_hint(lang: Language) -> (r: &'static str)
    ensures
        r@ == (match lang {
            Language::Pl => "Notatka..."@,
            Language::En => "Note..."@,
        }),
{
    match lang {
        Language::Pl => "Notatka...",
        Language::En => "Note...",
    }
}

/// Caption of the list of reminders.
pub fn ui_planned(lang: Language) -> (r: &'static str)
    ensures
        r@ == (match lang {
            Language::Pl => "Zaplanowane"@,
            Language::En => "Planned"@,
        }),
{
    match lang {
        Language::Pl => "Zaplanowane",
        Language::En => "Planned",
    }
}

/// Shown when the reminder store cannot be opened.
pub fn ui_no_db(lang: Language) -> (r: &'static str)
    ensures
        r@ == (match lang {
            Language::Pl => "Brak bazy danych"@,
            Language::En => "Database unavailable"@,
        }),
{
    match lang {
        Language::Pl => "Brak bazy danych",
        Language::En => "Database unavailable",
    }
}

/// Shown when no reminder is stored.
pub fn ui_empty(lang: Language) -> (r: &'static str)
    ensures
        r@ == (match lang {
            Language::Pl => "(pusto)"@,
            Language::En => "(empty)"@,
        }),
{
    match lang {
        Language::Pl => "(pusto)",
        Language::En => "(empty)",
    }
}

/// Shown when the reminder store cannot be read.
pub fn ui_db_read_error(lang: Language) -> (r: &'static str)
    ensures
        r@ == (match lang {
            Language::Pl => "Błąd odczytu bazy"@,
            Language::En => "Failed to read database"@,
        }),
{
    match lang {
        Language::Pl => "Błąd odczytu bazy",
        Language::En => "Failed to read database",
    }
}

/// Tooltip of the tray icon.
pub fn tray_tooltip(_lang: Language) -> (r: &'static str)
    ensures
        r@ == "SilliReminder"@,
{
    "SilliReminder"
}

/// Tray menu entry that opens the window.
pub fn tray_open(lang: Language) -> (r: &'static str)
    ensures
        r@ == (match lang {
            Language::Pl => "Otwórz"@,
            Language::En => "Open"@,
        }),
{
    match lang {
        Language::Pl => "Otwórz",
        Language::En => "Open",
    }
}

/// Tray menu entry that ends the application.
pub fn tray_exit(lang: Language) -> (r: &'static str)
    ensures
        r@ == (match lang {
            Language::Pl => "Zamknij"@,
            Language::En => "Exit"@,
        }),
{
    match lang {
        Language::Pl => "Zamknij",
        Language::En => "Exit",
    }
}

/// Label of the due date in a notification body.
pub open spec fn date_label_text(lang: Language) -> Seq<char> {
    match lang {
        Language::Pl => "Data"@,
        Language::En => "Date"@,
    }
}

/// Label of the due date in a notification body.
pub fn notif_date_label(lang: Language) -> (r: &'static str)
    ensures
        r@ == date_label_text(lang),
{
    match lang {
        Language::Pl => "Data",
        Language::En => "Date",
    }
}

/// Label of the year selector.
pub fn date_picker_year(lang: Language) -> (r: &'static str)
    ensures
        r@ == (match lang {
            Language::Pl => "Rok:"@,
            Language::En => "Year:"@,
        }),
{
    match lang {
        Language::Pl => "Rok:",
        Language::En => "Year:",
    }
}

/// Heading of the week-number column.
pub fn date_picker_week(lang: Language) -> (r: &'static str)
    ensures
        r@ == (match lang {
            Language::Pl => "Tydz."@,
            Language::En => "Wk"@,
        }),
{
    match lang {
        Language::Pl => "Tydz.",
        Language::En => "Wk",
    }
}

/// Label of the button that discards a picked date.
pub fn date_picker_cancel(lang: Language) -> (r: &'static str)
    ensures
        r@ == (match lang {
            Language::Pl => "Anuluj"@,
            Language::En => "Cancel"@,
        }),
{
    match lang {
        Language::Pl => "Anuluj",
        Language::En => "Cancel",
    }
}

/// Label of the button that keeps a picked date.
pub fn date_picker_save(lang: Language) -> (r: &'static str)
    ensures
        r@ == (match lang {
            Language::Pl => "Zapisz"@,
            Language::En => "Save"@,
        }),
{
    match lang {
        Language::Pl => "Zapisz",
        Language::En => "Save",
    }
}

/// Hover text of the previous-year arrow.
pub fn date_picker_hover_year_minus(lang: Language) -> (r: &'static str)
    ensures
        r@ == (match lang {
            Language::Pl => "odejmij 1 rok"@,
            Language::En => "subtract 1 year"@,
        }),
{
    match lang {
        Language::Pl => "odejmij 1 rok",
        Language::En => "subtract 1 year",
    }
}

/// Hover text of the previous-month arrow.
pub fn date_picker_hover_month_minus(lang: Language) -> (r: &'static str)
    ensures
        r@ == (match lang {
            Language::Pl => "odejmij 1 miesiąc"@,
            Language::En => "subtract 1 month"@,
        }),
{
    match lang {
        Language::Pl => "odejmij 1 miesiąc",
        Language::En => "subtract 1 month",
    }
}

/// Hover text of the previous-day arrow.
pub fn date_picker_hover_day_minus(lang: Language) -> (r: &'static str)
    ensures
        r@ == (match lang {
            Language::Pl => "odejmij 1 dzień"@,
            Language::En => "subtract 1 day"@,
        }),
{
    match lang {
        Language::Pl => "odejmij 1 dzień",
        Language::En => "subtract 1 day",
    }
}

/// Hover text of the next-day arrow.
pub fn date_picker_hover_day_plus(lang: Language) -> (r: &'static str)
    ensures
        r@ == (match lang {
            Language::Pl => "dodaj 1 dzień"@,
            Language::En => "add 1 day"@,
        }),
{
    match lang {
        Language::Pl => "dodaj 1 dzień",
        Language::En => "add 1 day",
    }
}

/// Hover text of the next-month arrow.
pub fn date_picker_hover_month_plus(lang: Language) -> (r: &'static str)
    ensures
        r@ == (match lang {
            Language::Pl => "dodaj 1 miesiąc"@,
            Language::En => "add 1 month"@,
        }),
{
    match lang {
        Language::Pl => "dodaj 1 miesiąc",
        Language::En => "add 1 month",
    }
}

/// Hover text of the next-year arrow.
pub fn date_picker_hover_year_plus(lang: Language) -> (r: &'static str)
    ensures
        r@ == (match lang {
            Language::Pl => "dodaj 1 rok"@,
            Language::En => "add 1 year"@,
        }),
{
    match lang {
        Language::Pl => "dodaj 1 rok",
        Language::En => "add 1 year",
    }
}

/// Text of the urgency threshold of `level`: levels other than 1 and 2 read as
/// the most urgent one.
pub open spec fn prefix_text(lang: Language, level: int) -> Seq<char> {
    match lang {
        Language::Pl => if level == 1 {
            "≤ 7 dni"@
        } else if level == 2 {
            "≤ 3 dni"@
        } else {
            "≤ 1 dzień"@
        },
        Language::En => if level == 1 {
            "≤ 7 days"@
        } else if level == 2 {
            "≤ 3 days"@
        } else {
            "≤ 1 day"@
        },
    }
}

/// Short text of the urgency threshold that `level` stands for.
pub fn notif_prefix(lang: Language, level: u8) -> (r: &'static str)
    ensures
        r@ == prefix_text(lang, level as int),
{
    match lang {
        Language::Pl => match level {
            1 => "≤ 7 dni",
            2 => "≤ 3 dni",
            _ => "≤ 1 dzień",
        },
        Language::En => match level {
            1 => "≤ 7 days",
            2 => "≤ 3 days",
            _ => "≤ 1 day",
        },
    }
}

/// Title of a notification at `level`.
pub open spec fn title_text(lang: Language, level: int) -> Seq<char> {
    match lang {
        Language::Pl => "Przypomnienie ("@ + prefix_text(lang, level) + ")"@,
        Language::En => "Reminder ("@ + prefix_text(lang, level) + ")"@,
    }
}

/// Title of a notification at `level`, such as `Reminder (≤ 3 days)`.
pub fn notif_title(lang: Language, level: u8) -> (r: String)
    ensures
        r@ == title_text(lang, level as int),
{
    let mut title = match lang {
        Language::Pl => String::from_str("Przypomnienie ("),
        Language::En => String::from_str("Reminder ("),
    };
    title.append(notif_prefix(lang, level));
    title.append(")");
    title
}

/// Short names of the days of the week, Monday first.
pub fn date_picker_weekdays(lang: Language) -> (r: [&'static str; 7])
    ensures
        lang == Language::Pl ==> r@ == seq!["Pn", "Wt", "Śr", "Cz", "Pt", "So", "Nd"],
        lang == Language::En ==> r@ == seq!["Mon", "Tue", "Wed", "Thu", "Fri", "Sat", "Sun"],
{
    match lang {
        Language::Pl => ["Pn", "Wt", "Śr", "Cz", "Pt", "So", "Nd"],
        Language::En => ["Mon", "Tue", "Wed", "Thu", "Fri", "Sat", "Sun"],
    }
}

/// Name of month `month` (1 to 12); `?` for any other number.
pub open spec fn month_name_text(lang: Language, month: int) -> Seq<char> {
    match lang {
        Language::Pl => if month == 1 {
            "Styczeń"@
        } else if month == 2 {
            "Luty"@
        } else if month == 3 {
            "Marzec"@
        } else if month == 4 {
            "Kwiecień"@
        } else if month == 5 {
            "Maj"@
        } else if month == 6 {
            "Czerwiec"@
        } else if month == 7 {
            "Lipiec"@
        } else if month == 8 {
            "Sierpień"@
        } else if month == 9 {
            "Wrzesień"@
        } else if month == 10 {
            "Październik"@
        } else if month == 11 {
            "Listopad"@
        } else if month == 12 {
            "Grudzień"@
        } else {
            "?"@
        },
        Language::En => if month == 1 {
            "January"@
        } else if month == 2 {
            "February"@
        } else if month == 3 {
            "March"@
        } else if month == 4 {
            "April"@
        } else if month == 5 {
            "May"@
        } else if month == 6 {
            "June"@
        } else if month == 7 {
            "July"@
        } else if month == 8 {
            "August"@
        } else if month == 9 {
            "September"@
        } else if month == 10 {
            "October"@
        } else if month == 11 {
            "November"@
        } else if month == 12 {
            "December"@
        } else {
            "?"@
        },
    }
}

/// Name of month `month` (1 to 12); `?` for any other number.
pub fn date_picker_month_name(lang: Language, month: u32) -> (r: &'static str)
    ensures
        r@ == month_name_text(lang, month as int),
{
    match lang {
        Language::Pl => match month {
            1 => "Styczeń",
            2 => "Luty",
            3 => "Marzec",
            4 => "Kwiecień",
            5 => "Maj",
            6 => "Czerwiec",
            7 => "Lipiec",
            8 => "Sierpień",
            9 => "Wrzesień",
            10 => "Październik",
            11 => "Listopad",
            12 => "Grudzień",
            _ => "?",
        },
        Language::En => match month {
            1 => "January",
            2 => "February",
            3 => "March",
            4 => "April",
            5 => "May",
            6 => "June",
            7 => "July",
            8 => "August",
            9 => "September",
            10 => "October",
            11 => "November",
            12 => "December",
            _ => "?",
        },
    }
}

} // verus!
