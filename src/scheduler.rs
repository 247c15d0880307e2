//! The notification scheduler: when to tick, the queue of pending notifications,
//! and the dispatcher that drains it into messages for the delivery sink.
use vstd::prelude::*;

use crate::boundary::{detect_crossings, pending_views, tick_crossings, tick_updates, BoundaryNotification, PendingView};
use crate::calendar::{iso_text, CalendarDate};
use crate::i18n::{date_label_text, notif_date_label, notif_title, title_text, Language};
use crate::reminder::{LevelUpdate, Reminder};
use crate::tray::{kind_of_level, notification_kind, TrayNotificationKind};

verus! {

/// Interval between ticks while the window is in the foreground, in milliseconds.
pub const FOREGROUND_INTERVAL_MS: u64 = 10000;

/// Interval between ticks while the application runs in the background, in milliseconds.
pub const BACKGROUND_INTERVAL_MS: u64 = 60000;

/// A notification ready for the delivery sink.
#[derive(Clone, Debug)]
pub struct TrayMessage {
    pub title: String,
    pub body: String,
    pub kind: TrayNotificationKind,
}

/// A message as plain values.
pub struct MessageView {
    pub title: Seq<char>,
    pub body: Seq<char>,
    pub kind: TrayNotificationKind,
}

impl View for TrayMessage {
    type V = MessageView;

    open spec fn view(&self) -> MessageView {
        MessageView { title: self.title@, body: self.body@, kind: self.kind }
    }
}

/// Body of the message for `p`: the note, a line break, then the date label and the due date.
pub open spec fn body_text(lang: Language, p: PendingView) -> Seq<char> {
    p.note + "\n"@ + date_label_text(lang) + ": "@ + iso_text(p.day)
}

/// The message that the dispatcher makes of pending notification `p`.
pub open spec fn message_of(lang: Language, p: PendingView) -> MessageView {
    MessageView { title: title_text(lang, p.level), body: body_text(lang, p), kind: kind_of_level(p.level) }
}

/// Messages of a queue of pending notifications, in queue order.
pub open spec fn messages_of(lang: Language, ps: Seq<PendingView>) -> Seq<MessageView> {
    ps.map_values(|p: PendingView| message_of(lang, p))
}

/// Views of a sequence of messages.
pub open spec fn message_views(ms: Seq<TrayMessage>) -> Seq<MessageView> {
    ms.map_values(|m: TrayMessage| m@)
}

/// The message for one pending notification.
pub fn format_notification(lang: Language, n: &BoundaryNotification) -> (m: TrayMessage)
    ensures
        m@ == message_of(lang, n@),
{
    let title = notif_title(lang, n.level);
    let mut body = n.note.clone();
    body.append("\n");
    body.append(notif_date_label(lang));
    body.append(": ");
    let date = n.date.to_iso_string();
    body.append(date.as_str());
    TrayMessage { title, body, kind: notification_kind(n.level) }
}

/// State of the scheduler as plain values.
pub struct SchedulerView {
    pub foreground_interval: int,
    pub background_interval: int,
    pub next_check: int,
    pub pending: Seq<PendingView>,
}

/// Decides when the boundary detector runs and holds, first in first out, the
/// notifications it has found and the dispatcher has not yet delivered.
pub struct NotificationScheduler {
    foreground_interval_ms: u64,
    background_interval_ms: u64,
    next_check_ms: u64,
    queue: Vec<BoundaryNotification>,
}

impl View for NotificationScheduler {
    type V = SchedulerView;

    closed spec fn view(&self) -> SchedulerView {
        SchedulerView {
            foreground_interval: self.foreground_interval_ms as int,
            background_interval: self.background_interval_ms as int,
            next_check: self.next_check_ms as int,
            pending: pending_views(self.queue@),
        }
    }
}

/// Time of the next check after one at `now`: `now + interval`, saturating.
pub open spec fn next_check_after(now: int, interval: int) -> int {
    if now + interval <= u64::MAX {
        now + interval
    } else {
        u64::MAX as int
    }
}

impl NotificationScheduler {
    /// A scheduler that ticks every `foreground_interval_ms` in the foreground and
    /// every `background_interval_ms` in the background; its first check is due at once.
    pub fn with_intervals(foreground_interval_ms: u64, background_interval_ms: u64) -> (s: Self)
        ensures
            s@.foreground_interval == foreground_interval_ms,
            s@.background_interval == background_interval_ms,
            s@.next_check == 0,
            s@.pending == Seq::<PendingView>::empty(),
    {
        let s = NotificationScheduler { foreground_interval_ms, background_interval_ms, next_check_ms: 0, queue: Vec::new() };
        assert(pending_views(s.queue@) =~= Seq::<PendingView>::empty());
        s
    }

    /// A scheduler with the standard intervals: ten seconds in the foreground,
    /// one minute in the background.
    pub fn new() -> (s: Self)
        ensures
            s@.foreground_interval == FOREGROUND_INTERVAL_MS,
            s@.background_interval == BACKGROUND_INTERVAL_MS,
            s@.next_check == 0,
            s@.pending == Seq::<PendingView>::empty(),
    {
        Self::with_intervals(FOREGROUND_INTERVAL_MS, BACKGROUND_INTERVAL_MS)
    }

    /// Whether a tick is due at time `now_ms` (milliseconds on a monotonic clock).
    /// When it is, the next one is set one interval later, the background one
    /// when `background` holds.
    pub fn is_due(&mut self, now_ms: u64, background: bool) -> (due: bool)
        ensures
            due == (now_ms >= old(self)@.next_check),
            due ==> final(self)@.next_check == next_check_after(
                now_ms as int,
                if background {
                    old(self)@.background_interval
                } else {
                    old(self)@.foreground_interval
                },
            ),
            !due ==> final(self)@.next_check == old(self)@.next_check,
            final(self)@.foreground_interval == old(self)@.foreground_interval,
            final(self)@.background_interval == old(self)@.background_interval,
            final(self)@.pending == old(self)@.pending,
    {
        if now_ms < self.next_check_ms {
            return false;
        }
        let interval = if background { self.background_interval_ms } else { self.foreground_interval_ms };
        self.next_check_ms = if now_ms <= u64::MAX - interval { now_ms + interval } else { u64::MAX };
        true
    }

    /// Runs the boundary detector over `reminders`, as the store lists them, on
    /// `today`: queues every newly crossed level, reminder by reminder in list
    /// order and ascending within a reminder, and returns the level to persist for
    /// each reminder whose urgency rose, in list order.
    pub fn check_boundary_notifications(&mut self, today: CalendarDate, reminders: &Vec<Reminder>) -> (updates: Vec<LevelUpdate>)
        ensures
            final(self)@.pending == old(self)@.pending + tick_crossings(today@, reminders@),
            updates@ == tick_updates(today@, reminders@),
            final(self)@.next_check == old(self)@.next_check,
            final(self)@.foreground_interval == old(self)@.foreground_interval,
            final(self)@.background_interval == old(self)@.background_interval,
    {
        detect_crossings(today, reminders, &mut self.queue)
    }

    /// Number of notifications waiting for the dispatcher.
    pub fn pending_count(&self) -> (n: usize)
        ensures
            n == self@.pending.len(),
    {
        self.queue.len()
    }

    /// Drains the queue: one message per pending notification, in queue order.
    pub fn dispatch_notifications(&mut self, lang: Language) -> (messages: Vec<TrayMessage>)
        ensures
            message_views(messages@) == messages_of(lang, old(self)@.pending),
            final(self)@.pending == Seq::<PendingView>::empty(),
            final(self)@.next_check == old(self)@.next_check,
            final(self)@.foreground_interval == old(self)@.foreground_interval,
            final(self)@.background_interval == old(self)@.background_interval,
    {
        let mut messages: Vec<TrayMessage> = Vec::new();
        let mut i: usize = 0;
        while i < self.queue.len()
            invariant
                i <= self.queue.len(),
                self.queue@ == old(self).queue@,
                message_views(messages@) =~= messages_of(lang, pending_views(self.queue@).take(i as int)),
            decreases self.queue.len() - i,
        {
            let m = format_notification(lang, &self.queue[i]);
            let ghost prev = messages@;
            messages.push(m);
            assert(message_views(messages@) =~= message_views(prev).push(m@));
            assert(pending_views(self.queue@).take(i + 1) =~= pending_views(self.queue@).take(i as int).push(self.queue@[i as int]@));
            i = i + 1;
        }
        assert(pending_views(self.queue@).take(i as int) =~= pending_views(self.queue@));
        self.queue = Vec::new();
        assert(pending_views(self.queue@) =~= Seq::<PendingView>::empty());
        messages
    }
}

} // verus!
