//! Start-up options read from the command line, and the autostart entry.
use vstd::prelude::*;

use crate::text::same_text;

verus! {

/// Whether some argument equals `flag`.
pub open spec fn has_arg(args: Seq<String>, flag: Seq<char>) -> bool {
    exists|i: int| 0 <= i < args.len() && #[trigger] args[i]@ == flag
}

/// Whether some argument equals `flag`.
fn contains_arg(args: &Vec<String>, flag: &str) -> (r: bool)
    ensures
        r == has_arg(args@, flag@),
{
    let mut i: usize = 0;
    while i < args.len()
        invariant
            i <= args.len(),
            forall|j: int| 0 <= j < i ==> #[trigger] args@[j]@ != flag@,
        decreases args.len() - i,
    {
        if same_text(args[i].as_str(), flag) {
            return true;
        }
        i = i + 1;
    }
    false
}

/// Whether the application starts in the background: launched with
/// `--background` or by the autostart entry (`--autostart`).
pub fn is_background_mode(args: &Vec<String>) -> (r: bool)
    ensures
        r == (has_arg(args@, "--background"@) || has_arg(args@, "--autostart"@)),
{
    contains_arg(args, "--background") || contains_arg(args, "--autostart")
}

/// Whether the application was launched by the autostart entry.
pub fn is_autostart_launch(args: &Vec<String>) -> (r: bool)
    ensures
        r == has_arg(args@, "--autostart"@),
{
    contains_arg(args, "--autostart")
}

/// Whether the application ends at once: launched by a stale autostart entry
/// while the start-with-system setting is off.
pub fn exits_at_start(autostart_launch: bool, system_start: bool) -> (r: bool)
    ensures
        r == (autostart_launch && !system_start),
{
    autostart_launch && !system_start
}

/// The command that the autostart entry runs: the quoted path of the executable
/// followed by `--autostart`.
pub fn autostart_command(exe_path: &str) -> (r: String)
    ensures
        r@ == "\""@ + exe_path@ + "\" --autostart"@,
{
    let mut command = String::from_str("\"");
    command.append(exe_path);
    command.append("\" --autostart");
    command
}

} // verus!
