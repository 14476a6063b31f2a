//! Classification of an interpreter run and construction of the shell
//! command that performs it.

use vstd::prelude::*;
use vstd::string::StringExecFns;

verus! {

/// How one run of the interpreter on the target file went.
pub enum ExecOutcome {
    /// The subprocess could not be started at all.
    LaunchFailure,
    /// The subprocess ran but exited with a non-zero status.
    RunFailure,
    /// The subprocess exited successfully; `output` holds its captured
    /// standard output.
    Success { output: String },
}

/// The outcome of a run, from whether the subprocess could be started,
/// whether it exited successfully, and its captured standard output.
pub open spec fn run_outcome(launched: bool, exit_ok: bool, output: String) -> ExecOutcome {
    if !launched {
        ExecOutcome::LaunchFailure
    } else if !exit_ok {
        ExecOutcome::RunFailure
    } else {
        (ExecOutcome::Success { output })
    }
}

/// Classifies one run of the interpreter: a launch failure, a failed exit,
/// or a success carrying the captured output.
pub fn classify_run(launched: bool, exit_ok: bool, output: String) -> (r: ExecOutcome)
    ensures
        r == run_outcome(launched, exit_ok, output),
{
    if !launched {
        ExecOutcome::LaunchFailure
    } else if !exit_ok {
        ExecOutcome::RunFailure
    } else {
        ExecOutcome::Success { output }
    }
}

/// The shell command that pipes a `#use` directive for the file at `path`
/// into the `ocaml` toplevel.
pub open spec fn command_of(path: Seq<char>) -> Seq<char> {
    "echo '#use \""@ + path + "\";;' | ocaml"@
}

/// Builds the shell command that runs the file at `path` through the
/// interpreter.
pub fn interpreter_command(path: &str) -> (r: String)
    ensures
        r@ == command_of(path@),
{
    let mut s = String::from_str("echo '#use \"");
    s.append(path);
    s.append("\";;' | ocaml");
    s
}

} // verus!
