//! The decisions of the watch loop: whether live mode was requested, and
//! what a file-system event of a given kind triggers.

use vstd::prelude::*;
use vstd::string::StringExecFns;

verus! {

/// The classification of a file-system event, as far as the watch loop
/// cares: a modification of the watched file, or anything else (including a
/// delivery error of the watcher).
#[derive(Clone, Copy, Debug, PartialEq, Eq, Structural)]
pub enum EventClass {
    Modify,
    Other,
}

/// Live mode is requested exactly when the second command-line argument is
/// the string `--live`.
pub open spec fn live_mode_spec(arg: Option<Seq<char>>) -> bool {
    arg matches Option::Some(a) && a == "--live"@
}

/// Decides whether live mode was requested, from the second command-line
/// argument, if any.
pub fn live_mode_requested(arg: Option<&String>) -> (r: bool)
    ensures
        r == live_mode_spec(arg.deep_view()),
{
    match arg {
        Option::None => false,
        Option::Some(a) => {
            let flag = String::from_str("--live");
            *a == flag
        },
    }
}

/// One step of the armed watch loop: a modify event triggers exactly one
/// render pass, and an event of any other class triggers none.
pub fn event_triggers_render(kind: EventClass) -> (r: bool)
    ensures
        r == (kind == EventClass::Modify),
{
    match kind {
        EventClass::Modify => true,
        EventClass::Other => false,
    }
}

} // verus!
