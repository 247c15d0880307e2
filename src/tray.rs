//! Values exchanged with the tray and notification layer.
use vstd::prelude::*;

verus! {

/// A command that the tray menu sends to the application window.
#[derive(Debug, Clone, Copy, PartialEq, Eq, Structural)]
pub enum TrayCommand {
    Open,
    Exit,
}

/// Severity of a delivered notification.
#[derive(Debug, Clone, Copy, PartialEq, Eq, Structural)]
pub enum TrayNotificationKind {
    Info,
    Warning,
    Error,
}

/// Severity of a notification at urgency `level`: 1 is informational, 2 a
/// warning, and 3 (or anything above it) an error.
pub open spec fn kind_of_level(level: int) -> TrayNotificationKind {
    if level == 1 {
        TrayNotificationKind::Info
    } else if level == 2 {
        TrayNotificationKind::Warning
    } else {
        TrayNotificationKind::Error
    }
}

/// Severity of a notification at urgency `level`.
pub fn notification_kind(level: u8) -> (r: TrayNotificationKind)
    ensures
        r == kind_of_level(level as int),
{
    match level {
        1 => TrayNotificationKind::Info,
        2 => TrayNotificationKind::Warning,
        _ => TrayNotificationKind::Error,
    }
}

/// The UTF-16 code units of a text, as `str::encode_utf16` yields them.
pub uninterp spec fn utf16_of(s: Seq<char>) -> Seq<u16>;

/// Relies on `str::encode_utf16`: the UTF-16 code units of the text, in order.
#[verifier::external_body]
fn utf16_units(s: &str) -> (r: Vec<u16>)
    ensures
        r@ == utf16_of(s@),
{
    s.encode_utf16().collect()
}

/// Number of code units that a buffer of `capacity` units keeps of a text of
/// `len` units: one unit is kept for the terminating zero.
pub open spec fn kept_units(capacity: int, len: int) -> int {
    if len < capacity - 1 {
        len
    } else {
        capacity - 1
    }
}

/// Copies the UTF-16 form of `s` into `dst`, cut to leave room for a
/// terminating zero, which follows it; an empty `dst` is left as it is.
pub fn copy_wide_trunc(dst: &mut [u16], s: &str)
    ensures
        old(dst)@.len() == 0 ==> final(dst)@ == old(dst)@,
        old(dst)@.len() > 0 ==> {
            let k = kept_units(old(dst)@.len() as int, utf16_of(s@).len() as int);
            &&& final(dst)@.len() == old(dst)@.len()
            &&& final(dst)@.take(k) == utf16_of(s@).take(k)
            &&& final(dst)@[k] == 0
            &&& final(dst)@.skip(k + 1) == old(dst)@.skip(k + 1)
        },
{
    let units = utf16_units(s);
    if dst.len() == 0 {
        return;
    }
    let mut i: usize = 0;
    while i + 1 < dst.len() && i < units.len()
        invariant
            i < dst@.len(),
            i <= units@.len(),
            dst@.len() == old(dst)@.len(),
            units@ == utf16_of(s@),
            forall|t: int| 0 <= t < i ==> dst@[t] == units@[t],
            forall|t: int| i <= t < dst@.len() ==> dst@[t] == old(dst)@[t],
        decreases units@.len() - i,
    {
        dst[i] = units[i];
        i = i + 1;
    }
    dst[i] = 0;
    assert(dst@.take(i as int) =~= units@.take(i as int));
    assert(dst@.skip(i + 1) =~= old(dst)@.skip(i + 1));
}

} // verus!
