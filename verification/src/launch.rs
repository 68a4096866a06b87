//! Command-line flags.

use vstd::prelude::*;
use crate::monitor::MultiMonitorMode;
use crate::text::str_eq;

verus! {

/// How the program was asked to run.
#[derive(Debug, Clone, Copy, PartialEq, Eq, Structural)]
pub struct LaunchOptions {
    /// Monitor mode to start in: duplicate with `--duplicate`, else span.
    pub mode: MultiMonitorMode,
    /// With `--update-once`: update the wallpaper once and exit.
    pub update_once: bool,
}

/// Whether some argument is exactly `flag`.
pub open spec fn has_flag(args: Seq<String>, flag: Seq<char>) -> bool {
    exists|i: int| 0 <= i < args.len() && (#[trigger] args[i])@ == flag
}

fn contains_flag(args: &Vec<String>, flag: &str) -> (r: bool)
    ensures
        r == has_flag(args@, flag@),
{
    let n = args.len();
    let mut i: usize = 0;
    while i < n
        invariant
            n == args@.len(),
            i <= n,
            forall|j: int| 0 <= j < i ==> (#[trigger] args@[j])@ != flag@,
        decreases n - i,
    {
        if str_eq(args[i].as_str(), flag) {
            assert(args@[i as int]@ == flag@);
            return true;
        }
        i = i + 1;
    }
    false
}

/// Read the flags from the program's arguments (the program name
/// included; any argument may be a flag, unknown ones are ignored).
pub fn parse_args(args: &Vec<String>) -> (r: LaunchOptions)
    ensures
        r.mode == (if has_flag(args@, "--duplicate"@) {
            MultiMonitorMode::Duplicate
        } else {
            MultiMonitorMode::Span
        }),
        r.update_once == has_flag(args@, "--update-once"@),
{
    let duplicate = contains_flag(args, "--duplicate");
    let update_once = contains_flag(args, "--update-once");
    LaunchOptions {
        mode: if duplicate {
            MultiMonitorMode::Duplicate
        } else {
            MultiMonitorMode::Span
        },
        update_once,
    }
}

} // verus!
