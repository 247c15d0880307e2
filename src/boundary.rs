//! Urgency classification and detection of newly crossed urgency thresholds.
use vstd::prelude::*;

use crate::calendar::CalendarDate;
use crate::reminder::{clamp_level, LevelUpdate, Reminder, MAX_LEVEL};

verus! {

/// Urgency level of a reminder due `days_until` days from today.
pub open spec fn urgency_of(days_until: int) -> int {
    if days_until <= 1 {
        3
    } else if days_until <= 3 {
        2
    } else if days_until <= 7 {
        1
    } else {
        0
    }
}

/// Urgency of reminder `r` on day `today`.
pub open spec fn current_level(today: int, r: Reminder) -> int {
    urgency_of(r.date@ - today)
}

/// Level already announced for `r`, clamped to the valid range.
pub open spec fn previous_level(r: Reminder) -> int {
    clamp_level(r.notified_level as int)
}

/// Whether a tick on day `today` raises the urgency of `r`.
pub open spec fn is_crossing(today: int, r: Reminder) -> bool {
    current_level(today, r) > previous_level(r)
}

/// A pending notification as plain values: due day, note and level.
pub struct PendingView {
    pub day: int,
    pub note: Seq<char>,
    pub level: int,
}

/// The pending notification for reminder `r` at `level`.
pub open spec fn pending_of(r: Reminder, level: int) -> PendingView {
    PendingView { day: r.date@, note: r.note@, level }
}

/// Every level in `(previous, current]` for `r`, ascending.
pub open spec fn reminder_crossings(today: int, r: Reminder) -> Seq<PendingView> {
    if is_crossing(today, r) {
        Seq::new(
            (current_level(today, r) - previous_level(r)) as nat,
            |i: int| pending_of(r, previous_level(r) + 1 + i),
        )
    } else {
        Seq::empty()
    }
}

/// Pending notifications of a tick over `rs`, reminder by reminder in list order.
pub open spec fn tick_crossings(today: int, rs: Seq<Reminder>) -> Seq<PendingView>
    decreases rs.len(),
{
    if rs.len() == 0 {
        Seq::empty()
    } else {
        tick_crossings(today, rs.drop_last()) + reminder_crossings(today, rs.last())
    }
}

/// The level update that a tick asks for `r`, if any.
pub open spec fn reminder_update(today: int, r: Reminder) -> Seq<LevelUpdate> {
    if is_crossing(today, r) {
        seq![LevelUpdate { id: r.id, level: current_level(today, r) as u8 }]
    } else {
        Seq::empty()
    }
}

/// Level updates of a tick over `rs`, in list order.
pub open spec fn tick_updates(today: int, rs: Seq<Reminder>) -> Seq<LevelUpdate>
    decreases rs.len(),
{
    if rs.len() == 0 {
        Seq::empty()
    } else {
        tick_updates(today, rs.drop_last()) + reminder_update(today, rs.last())
    }
}

/// Reminder `r` once the level update of a tick on `today` has been persisted.
pub open spec fn after_tick(today: int, r: Reminder) -> Reminder {
    if is_crossing(today, r) {
        Reminder {
            id: r.id,
            date: r.date,
            note: r.note,
            notified_level: current_level(today, r) as u8,
        }
    } else {
        r
    }
}

/// The stored reminders once every level update of a tick on `today` has been persisted.
pub open spec fn tick_state(today: int, rs: Seq<Reminder>) -> Seq<Reminder> {
    rs.map_values(|r: Reminder| after_tick(today, r))
}

/// The stored reminders after a tick on `today` of which only the level updates
/// of the reminders at the positions in `written` were persisted; the other
/// writes failed and those reminders keep their level.
pub open spec fn tick_state_partial(today: int, rs: Seq<Reminder>, written: Set<int>) -> Seq<Reminder> {
    Seq::new(
        rs.len(),
        |i: int|
            if written.contains(i) {
                after_tick(today, rs[i])
            } else {
                rs[i]
            },
    )
}

/// The stored reminders after a sequence of ticks, each given by its day and the
/// positions whose level updates were persisted.
pub open spec fn run_ticks(ticks: Seq<(int, Set<int>)>, rs: Seq<Reminder>) -> Seq<Reminder>
    decreases ticks.len(),
{
    if ticks.len() == 0 {
        rs
    } else {
        tick_state_partial(ticks.last().0, run_ticks(ticks.drop_last(), rs), ticks.last().1)
    }
}

/// A tick over two lists in a row yields the first list's notifications and
/// updates, then the second's: a reminder listed earlier is processed in full
/// before any reminder listed after it.
pub proof fn lemma_tick_concat(today: int, rs1: Seq<Reminder>, rs2: Seq<Reminder>)
    ensures
        tick_crossings(today, rs1 + rs2) == tick_crossings(today, rs1) + tick_crossings(today, rs2),
        tick_updates(today, rs1 + rs2) == tick_updates(today, rs1) + tick_updates(today, rs2),
    decreases rs2.len(),
{
    if rs2.len() == 0 {
        assert(rs1 + rs2 =~= rs1);
        assert(tick_crossings(today, rs1) + tick_crossings(today, rs2) =~= tick_crossings(today, rs1));
        assert(tick_updates(today, rs1) + tick_updates(today, rs2) =~= tick_updates(today, rs1));
    } else {
        lemma_tick_concat(today, rs1, rs2.drop_last());
        assert((rs1 + rs2).drop_last() =~= rs1 + rs2.drop_last());
        assert((rs1 + rs2).last() == rs2.last());
        assert(tick_crossings(today, rs1 + rs2) =~= tick_crossings(today, rs1) + tick_crossings(today, rs2));
        assert(tick_updates(today, rs1 + rs2) =~= tick_updates(today, rs1) + tick_updates(today, rs2));
    }
}

/// A second tick on the same day, over the reminders as the first tick left
/// them, announces nothing and persists nothing.
pub proof fn lemma_tick_idempotent(today: int, rs: Seq<Reminder>)
    ensures
        tick_crossings(today, tick_state(today, rs)) == Seq::<PendingView>::empty(),
        tick_updates(today, tick_state(today, rs)) == Seq::<LevelUpdate>::empty(),
    decreases rs.len(),
{
    if rs.len() > 0 {
        lemma_tick_idempotent(today, rs.drop_last());
        assert(tick_state(today, rs).drop_last() =~= tick_state(today, rs.drop_last()));
        assert(tick_state(today, rs).last() == after_tick(today, rs.last()));
        assert(!is_crossing(today, after_tick(today, rs.last())));
        assert(tick_crossings(today, tick_state(today, rs)) =~= Seq::<PendingView>::empty());
        assert(tick_updates(today, tick_state(today, rs)) =~= Seq::<LevelUpdate>::empty());
    }
}

/// A tick never lowers a reminder's announced level, and changes nothing else of it.
pub proof fn lemma_tick_monotonic(today: int, rs: Seq<Reminder>)
    ensures
        tick_state(today, rs).len() == rs.len(),
        forall|i: int|
            0 <= i < rs.len() ==> {
                &&& (#[trigger] tick_state(today, rs)[i]).notified_level >= rs[i].notified_level
                &&& tick_state(today, rs)[i].id == rs[i].id
                &&& tick_state(today, rs)[i].date == rs[i].date
                &&& tick_state(today, rs)[i].note == rs[i].note
            },
{
}

/// Where a level write fails, the next tick on the same day detects that
/// reminder's crossings again, unchanged; where it succeeds, nothing is detected
/// again for it.
pub proof fn lemma_failed_write_redetected(today: int, rs: Seq<Reminder>, written: Set<int>, i: int)
    requires
        0 <= i < rs.len(),
    ensures
        !written.contains(i) ==> reminder_crossings(today, tick_state_partial(today, rs, written)[i])
            == reminder_crossings(today, rs[i]),
        written.contains(i) ==> reminder_crossings(today, tick_state_partial(today, rs, written)[i])
            == Seq::<PendingView>::empty(),
{
    assert(reminder_crossings(today, after_tick(today, rs[i])) =~= Seq::<PendingView>::empty());
}

/// Over any sequence of ticks, on any days and whichever level writes fail, no
/// reminder's announced level decreases, and no reminder changes otherwise.
pub proof fn lemma_ticks_monotonic(ticks: Seq<(int, Set<int>)>, rs: Seq<Reminder>)
    ensures
        run_ticks(ticks, rs).len() == rs.len(),
        forall|i: int|
            0 <= i < rs.len() ==> {
                &&& (#[trigger] run_ticks(ticks, rs)[i]).notified_level >= rs[i].notified_level
                &&& run_ticks(ticks, rs)[i].id == rs[i].id
                &&& run_ticks(ticks, rs)[i].date == rs[i].date
                &&& run_ticks(ticks, rs)[i].note == rs[i].note
            },
    decreases ticks.len(),
{
    if ticks.len() > 0 {
        lemma_ticks_monotonic(ticks.drop_last(), rs);
        let prev = run_ticks(ticks.drop_last(), rs);
        assert forall|i: int| 0 <= i < rs.len() implies {
            &&& (#[trigger] run_ticks(ticks, rs)[i]).notified_level >= rs[i].notified_level
            &&& run_ticks(ticks, rs)[i].id == rs[i].id
            &&& run_ticks(ticks, rs)[i].date == rs[i].date
            &&& run_ticks(ticks, rs)[i].note == rs[i].note
        } by {
            assert(prev[i].notified_level >= rs[i].notified_level);
            assert(run_ticks(ticks, rs)[i] == tick_state_partial(ticks.last().0, prev, ticks.last().1)[i]);
        }
    }
}

/// A tick over a single reminder yields that reminder's crossings and update.
pub proof fn lemma_tick_single(today: int, r: Reminder)
    ensures
        tick_crossings(today, seq![r]) == reminder_crossings(today, r),
        tick_updates(today, seq![r]) == reminder_update(today, r),
{
    let empty = Seq::<Reminder>::empty();
    assert(seq![r].drop_last() =~= empty);
    assert(tick_crossings(today, empty) == Seq::<PendingView>::empty());
    assert(tick_updates(today, empty) == Seq::<LevelUpdate>::empty());
    assert(seq![r].last() == r);
    assert(tick_crossings(today, seq![r]) =~= reminder_crossings(today, r));
    assert(tick_updates(today, seq![r]) =~= reminder_update(today, r));
}

/// An unannounced reminder that is due today yields levels 1, 2 and 3, in that
/// order, in one tick, and its persisted level becomes 3.
pub proof fn lemma_no_skip(today: int, r: Reminder)
    requires
        r.notified_level == 0,
        r.date@ == today,
    ensures
        tick_crossings(today, seq![r]) == seq![pending_of(r, 1), pending_of(r, 2), pending_of(r, 3)],
        tick_updates(today, seq![r]) == seq![LevelUpdate { id: r.id, level: 3 }],
        tick_state(today, seq![r]) == seq![after_tick(today, r)],
        after_tick(today, r).notified_level == 3,
{
    lemma_tick_single(today, r);
    assert(current_level(today, r) == 3);
    assert(previous_level(r) == 0);
    assert(reminder_crossings(today, r) =~= seq![pending_of(r, 1), pending_of(r, 2), pending_of(r, 3)]);
    assert(tick_updates(today, seq![r]) =~= seq![LevelUpdate { id: r.id, level: 3 }]);
    assert(tick_state(today, seq![r]) =~= seq![after_tick(today, r)]);
}

/// Of two unannounced reminders, one due in one day and listed first, one due in
/// three days, a tick announces all levels of the first before those of the second.
pub proof fn lemma_sooner_first(today: int, a: Reminder, b: Reminder)
    requires
        a.date@ == today + 1,
        b.date@ == today + 3,
        a.notified_level == 0,
        b.notified_level == 0,
    ensures
        tick_crossings(today, seq![a, b]) == seq![
            pending_of(a, 1),
            pending_of(a, 2),
            pending_of(a, 3),
            pending_of(b, 1),
            pending_of(b, 2),
        ],
{
    lemma_tick_concat(today, seq![a], seq![b]);
    assert(seq![a] + seq![b] =~= seq![a, b]);
    lemma_tick_single(today, a);
    lemma_tick_single(today, b);
    assert(current_level(today, a) == 3 && previous_level(a) == 0);
    assert(current_level(today, b) == 2 && previous_level(b) == 0);
    assert(reminder_crossings(today, a) =~= seq![pending_of(a, 1), pending_of(a, 2), pending_of(a, 3)]);
    assert(reminder_crossings(today, b) =~= seq![pending_of(b, 1), pending_of(b, 2)]);
    assert(tick_crossings(today, seq![a, b]) =~= seq![
        pending_of(a, 1),
        pending_of(a, 2),
        pending_of(a, 3),
        pending_of(b, 1),
        pending_of(b, 2),
    ]);
}

/// Every level update of a tick names a reminder of the list.
pub proof fn lemma_updates_name_listed(today: int, rs: Seq<Reminder>)
    ensures
        forall|u: LevelUpdate|
            #[trigger] tick_updates(today, rs).contains(u) ==> exists|j: int| 0 <= j < rs.len() && rs[j].id == u.id,
    decreases rs.len(),
{
    if rs.len() > 0 {
        lemma_updates_name_listed(today, rs.drop_last());
        assert forall|u: LevelUpdate| #[trigger] tick_updates(today, rs).contains(u) implies exists|j: int|
            0 <= j < rs.len() && rs[j].id == u.id by {
            let prefix = tick_updates(today, rs.drop_last());
            let k = choose|k: int| 0 <= k < tick_updates(today, rs).len() && tick_updates(today, rs)[k] == u;
            if k < prefix.len() {
                assert(prefix[k] == u);
                assert(prefix.contains(u));
                let j = choose|j: int| 0 <= j < rs.drop_last().len() && rs.drop_last()[j].id == u.id;
                assert(rs[j].id == u.id);
            } else {
                assert(rs[rs.len() - 1].id == u.id);
            }
        }
    }
}

/// Once a reminder is deleted from the store, a tick over what remains yields
/// exactly the notifications of the other reminders, in their order, and, where
/// identifiers are unique, no level update for the deleted one.
pub proof fn lemma_deleted_reminder_silent(today: int, rs: Seq<Reminder>, k: int)
    requires
        0 <= k < rs.len(),
    ensures
        tick_crossings(today, rs.remove(k)) == tick_crossings(today, rs.take(k)) + tick_crossings(today, rs.skip(k + 1)),
        (forall|i: int, j: int| 0 <= i < j < rs.len() ==> rs[i].id != rs[j].id) ==> forall|u: LevelUpdate|
            #[trigger] tick_updates(today, rs.remove(k)).contains(u) ==> u.id != rs[k].id,
{
    assert(rs.remove(k) =~= rs.take(k) + rs.skip(k + 1));
    lemma_tick_concat(today, rs.take(k), rs.skip(k + 1));
    lemma_updates_name_listed(today, rs.remove(k));
    if forall|i: int, j: int| 0 <= i < j < rs.len() ==> rs[i].id != rs[j].id {
        assert forall|u: LevelUpdate| #[trigger] tick_updates(today, rs.remove(k)).contains(u) implies u.id != rs[k].id by {
            let j = choose|j: int| 0 <= j < rs.remove(k).len() && rs.remove(k)[j].id == u.id;
            if j < k {
                assert(rs.remove(k)[j] == rs[j]);
            } else {
                assert(rs.remove(k)[j] == rs[j + 1]);
            }
        }
    }
}

/// A pending notification: created by the detector, consumed once by the dispatcher.
#[derive(Clone, Debug)]
pub struct BoundaryNotification {
    pub date: CalendarDate,
    pub note: String,
    pub level: u8,
}

impl View for BoundaryNotification {
    type V = PendingView;

    open spec fn view(&self) -> PendingView {
        PendingView { day: self.date@, note: self.note@, level: self.level as int }
    }
}

/// Views of a queue of pending notifications.
pub open spec fn pending_views(q: Seq<BoundaryNotification>) -> Seq<PendingView> {
    q.map_values(|n: BoundaryNotification| n@)
}

/// Maps the number of days until the due date to an urgency level.
pub fn urgency_level(today: CalendarDate, date: CalendarDate) -> (r: u8)
    ensures
        r == urgency_of(date@ - today@),
{
    let days_until = today.days_until(&date);
    if days_until <= 1 {
        3
    } else if days_until <= 3 {
        2
    } else if days_until <= 7 {
        1
    } else {
        0
    }
}

/// Appends to `queue` every level that reminder `r` has newly crossed on `today`,
/// ascending, and returns the level to persist for it, if it changed.
fn enqueue_crossings(today: CalendarDate, r: &Reminder, queue: &mut Vec<BoundaryNotification>) -> (u: Option<LevelUpdate>)
    ensures
        pending_views(final(queue)@) == pending_views(old(queue)@) + reminder_crossings(today@, *r),
        u matches Some(x) ==> seq![x] == reminder_update(today@, *r),
        u is None ==> reminder_update(today@, *r) == Seq::<LevelUpdate>::empty(),
{
    let current = urgency_level(today, r.date);
    let previous = if r.notified_level < MAX_LEVEL { r.notified_level } else { MAX_LEVEL };
    if current <= previous {
        assert(pending_views(queue@) =~= pending_views(old(queue)@) + reminder_crossings(today@, *r));
        return None;
    }
    let ghost base = pending_views(old(queue)@);
    let mut level: u8 = previous + 1;
    while level <= current
        invariant
            previous < level <= current + 1,
            current <= 3,
            current == current_level(today@, *r),
            previous == previous_level(*r),
            pending_views(queue@) =~= base + reminder_crossings(today@, *r).take(level - previous - 1),
        decreases current + 1 - level,
    {
        let n = BoundaryNotification { date: r.date, note: r.note.clone(), level };
        let ghost prev_q = queue@;
        assert(n@ == pending_of(*r, level as int));
        assert(reminder_crossings(today@, *r)[level - previous - 1] == pending_of(*r, level as int));
        queue.push(n);
        assert(pending_views(queue@) =~= pending_views(prev_q).push(n@));
        assert(pending_views(queue@) =~= base + reminder_crossings(today@, *r).take(level - previous));
        level = level + 1;
    }
    assert(reminder_crossings(today@, *r).take(current - previous) =~= reminder_crossings(today@, *r));
    Some(LevelUpdate { id: r.id, level: current })
}

/// Runs the boundary detector over `reminders` on `today`: appends every newly
/// crossed level to `queue` (reminder by reminder, ascending levels) and returns
/// the levels to persist, in list order.
pub fn detect_crossings(today: CalendarDate, reminders: &Vec<Reminder>, queue: &mut Vec<BoundaryNotification>) -> (updates: Vec<LevelUpdate>)
    ensures
        pending_views(final(queue)@) == pending_views(old(queue)@) + tick_crossings(today@, reminders@),
        updates@ == tick_updates(today@, reminders@),
{
    let mut updates: Vec<LevelUpdate> = Vec::new();
    let mut k: usize = 0;
    while k < reminders.len()
        invariant
            k <= reminders.len(),
            pending_views(queue@) == pending_views(old(queue)@) + tick_crossings(today@, reminders@.take(k as int)),
            updates@ == tick_updates(today@, reminders@.take(k as int)),
        decreases reminders.len() - k,
    {
        let ghost before = pending_views(queue@);
        let u = enqueue_crossings(today, &reminders[k], queue);
        match u {
            Some(x) => updates.push(x),
            None => {},
        }
        assert(reminders@.take(k + 1).drop_last() =~= reminders@.take(k as int));
        assert(pending_views(queue@) =~= pending_views(old(queue)@) + tick_crossings(today@, reminders@.take(k + 1)));
        k = k + 1;
    }
    assert(reminders@.take(k as int) =~= reminders@);
    updates
}

} // verus!
