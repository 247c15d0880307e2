//! The stored start-with-system setting.
use vstd::prelude::*;

use crate::text::{same_text, trim_text, trimmed};

verus! {

/// Whether the stored text of the setting turns it on: after trimming, one of
/// `1`, `true`, `True` and `TRUE`.
pub open spec fn setting_enabled(content: Seq<char>) -> bool {
    let t = trimmed(content);
    t == "1"@ || t == "true"@ || t == "True"@ || t == "TRUE"@
}

/// Reads the stored text of the setting.
pub fn parse_setting(content: &str) -> (r: bool)
    ensures
        r == setting_enabled(content@),
{
    let t = trim_text(content);
    same_text(t, "1") || same_text(t, "true") || same_text(t, "True") || same_text(t, "TRUE")
}

/// The text stored for the setting.
pub fn setting_text(system_start: bool) -> (r: &'static str)
    ensures
        r@ == (if system_start {
            "1"@
        } else {
            "0"@
        }),
{
    if system_start {
        "1"
    } else {
        "0"
    }
}

} // verus!
