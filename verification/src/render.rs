//! Terminal rendering: exact models of the ANSI escape sequences the tool
//! emits, trusted wrappers over `termion` that produce them, and the verified
//! construction of the full screen for each outcome of a run.

use vstd::prelude::*;
use vstd::string::StringExecFns;
use crate::executor::ExecOutcome;
use crate::paths::base_name_of;

verus! {

// --- Models of the escape sequences ---

/// The clear-entire-screen escape, `ESC [ 2 J`.
pub open spec fn clear_all_seq() -> Seq<char> {
    "\u{1b}[2J"@
}

/// The bold-text escape, `ESC [ 1 m`.
pub open spec fn bold_seq() -> Seq<char> {
    "\u{1b}[1m"@
}

/// The reset-styling escape, `ESC [ m`.
pub open spec fn reset_seq() -> Seq<char> {
    "\u{1b}[m"@
}

/// The red-foreground escape, `ESC [ 38 ; 5 ; 1 m`.
pub open spec fn red_fg_seq() -> Seq<char> {
    "\u{1b}[38;5;1m"@
}

/// The green-foreground escape, `ESC [ 38 ; 5 ; 2 m`.
pub open spec fn green_fg_seq() -> Seq<char> {
    "\u{1b}[38;5;2m"@
}

/// The decimal digit character for `n` below ten.
pub open spec fn decimal_digit(n: nat) -> char
    recommends
        n < 10,
{
    if n == 0 {
        '0'
    } else if n == 1 {
        '1'
    } else if n == 2 {
        '2'
    } else if n == 3 {
        '3'
    } else if n == 4 {
        '4'
    } else if n == 5 {
        '5'
    } else if n == 6 {
        '6'
    } else if n == 7 {
        '7'
    } else if n == 8 {
        '8'
    } else {
        '9'
    }
}

/// The usual decimal rendering of `n`, most significant digit first.
pub open spec fn decimal_seq(n: nat) -> Seq<char>
    decreases n,
{
    if n < 10 {
        seq![decimal_digit(n)]
    } else {
        decimal_seq(n / 10).push(decimal_digit(n % 10))
    }
}

/// The cursor-positioning escape `ESC [ row ; column H` for the one-based
/// column `x` and row `y`.
pub open spec fn goto_seq(x: u16, y: u16) -> Seq<char> {
    "\u{1b}["@ + decimal_seq(y as nat) + ";"@ + decimal_seq(x as nat) + "H"@
}

// --- Trusted wrappers over termion ---

/// Relies on `termion::clear::All`: its `Display` impl writes `ESC [ 2 J`.
#[verifier::external_body]
fn clear_all() -> (r: String)
    ensures
        r@ == clear_all_seq(),
{
    format!("{}", termion::clear::All)
}

/// Relies on `termion::cursor::Goto`: its `Display` impl writes
/// `ESC [ y ; x H`, the coordinates in plain decimal. `Goto` is one-based.
#[verifier::external_body]
fn goto(x: u16, y: u16) -> (r: String)
    requires
        1 <= x,
        1 <= y,
    ensures
        r@ == goto_seq(x, y),
{
    format!("{}", termion::cursor::Goto(x, y))
}

/// Relies on `termion::style::Bold`: its `Display` impl writes `ESC [ 1 m`.
#[verifier::external_body]
fn bold() -> (r: String)
    ensures
        r@ == bold_seq(),
{
    format!("{}", termion::style::Bold)
}

/// Relies on `termion::style::Reset`: its `Display` impl writes `ESC [ m`.
#[verifier::external_body]
fn style_reset() -> (r: String)
    ensures
        r@ == reset_seq(),
{
    format!("{}", termion::style::Reset)
}

/// Relies on `termion::color::Red::fg_str`, which returns
/// `ESC [ 38 ; 5 ; 1 m` unconditionally (unlike the `Display` impl of
/// `color::Fg`, whose output is suppressed when `NO_COLOR` is set).
#[verifier::external_body]
fn red_fg() -> (r: String)
    ensures
        r@ == red_fg_seq(),
{
    String::from(termion::color::Red.fg_str())
}

/// Relies on `termion::color::Green::fg_str`, which returns
/// `ESC [ 38 ; 5 ; 2 m` unconditionally.
#[verifier::external_body]
fn green_fg() -> (r: String)
    ensures
        r@ == green_fg_seq(),
{
    String::from(termion::color::Green.fg_str())
}

// --- Banner messages ---

/// The message shown when the interpreter could not be started at all.
pub open spec fn launch_failure_message_of(name: Seq<char>) -> Seq<char> {
    "Could not execute the file `"@ + name + "`"@
}

/// The message shown when the interpreter ran but exited with a failure.
pub open spec fn run_failure_message_of(name: Seq<char>) -> Seq<char> {
    "An error occurred while executing `"@ + name + "`"@
}

/// The message shown on a successful run, before the captured output.
pub open spec fn success_message_of(name: Seq<char>) -> Seq<char> {
    "Successfully executed the file `"@ + name + "`:"@
}

/// Builds the launch-failure message for the file called `name`.
pub fn launch_failure_message(name: &str) -> (r: String)
    ensures
        r@ == launch_failure_message_of(name@),
{
    let mut s = String::from_str("Could not execute the file `");
    s.append(name);
    s.append("`");
    s
}

/// Builds the run-failure message for the file called `name`.
pub fn run_failure_message(name: &str) -> (r: String)
    ensures
        r@ == run_failure_message_of(name@),
{
    let mut s = String::from_str("An error occurred while executing `");
    s.append(name);
    s.append("`");
    s
}

/// Builds the success message for the file called `name`.
pub fn success_message(name: &str) -> (r: String)
    ensures
        r@ == success_message_of(name@),
{
    let mut s = String::from_str("Successfully executed the file `");
    s.append(name);
    s.append("`:");
    s
}

// --- Whole screens ---

/// The screen drawn for any error: clear, home the cursor, then a bold red
/// `error: ` label followed by the message.
pub open spec fn error_screen_of(message: Seq<char>) -> Seq<char> {
    clear_all_seq() + goto_seq(1, 1) + goto_seq(1, 1) + red_fg_seq() + bold_seq() + "error"@
        + reset_seq() + ": "@ + message
}

/// The banner part of a success screen: clear, home the cursor, then a bold
/// green `success: ` label followed by the success message naming the file.
pub open spec fn success_banner_of(name: Seq<char>) -> Seq<char> {
    clear_all_seq() + goto_seq(1, 1) + goto_seq(1, 1) + green_fg_seq() + bold_seq() + "success"@
        + reset_seq() + ": "@ + success_message_of(name)
}

/// The screen drawn for a successful run: the banner, a cursor move to the
/// third row, then the captured output verbatim.
pub open spec fn success_screen_of(name: Seq<char>, text: Seq<char>) -> Seq<char> {
    success_banner_of(name) + goto_seq(1, 3) + text
}

/// Draws the error screen for `message`.
pub fn show_error(message: &str) -> (r: String)
    ensures
        r@ == error_screen_of(message@),
{
    let mut s = clear_all();
    let home = goto(1, 1);
    s.append(home.as_str());
    let home_again = goto(1, 1);
    s.append(home_again.as_str());
    let red = red_fg();
    s.append(red.as_str());
    let heavy = bold();
    s.append(heavy.as_str());
    s.append("error");
    let plain = style_reset();
    s.append(plain.as_str());
    s.append(": ");
    s.append(message);
    proof {
        assert(s@ =~= error_screen_of(message@));
    }
    s
}

/// Draws the success screen for the file called `name` with captured output
/// `text`.
pub fn show_success(name: &str, text: &str) -> (r: String)
    ensures
        r@ == success_screen_of(name@, text@),
{
    let mut s = clear_all();
    let home = goto(1, 1);
    s.append(home.as_str());
    let home_again = goto(1, 1);
    s.append(home_again.as_str());
    let green = green_fg();
    s.append(green.as_str());
    let heavy = bold();
    s.append(heavy.as_str());
    s.append("success");
    let plain = style_reset();
    s.append(plain.as_str());
    s.append(": ");
    let message = success_message(name);
    s.append(message.as_str());
    let third_row = goto(1, 3);
    s.append(third_row.as_str());
    s.append(text);
    proof {
        assert(s@ =~= success_screen_of(name@, text@));
    }
    s
}

/// The screen drawn for a given outcome of a run of the file called `name`.
pub open spec fn screen_of(outcome: ExecOutcome, name: Seq<char>) -> Seq<char> {
    match outcome {
        ExecOutcome::LaunchFailure => error_screen_of(launch_failure_message_of(name)),
        ExecOutcome::RunFailure => error_screen_of(run_failure_message_of(name)),
        ExecOutcome::Success { output } => success_screen_of(name, output@),
    }
}

/// Draws the screen for `outcome`, naming the file `name` in the banner.
pub fn render_screen(outcome: &ExecOutcome, name: &str) -> (r: String)
    ensures
        r@ == screen_of(*outcome, name@),
{
    match outcome {
        ExecOutcome::LaunchFailure => {
            let message = launch_failure_message(name);
            show_error(message.as_str())
        },
        ExecOutcome::RunFailure => {
            let message = run_failure_message(name);
            show_error(message.as_str())
        },
        ExecOutcome::Success { output } => show_success(name, output.as_str()),
    }
}

/// The screen of one full pass over the file at `path`, given how the
/// interpreter run went: `launched` says whether the subprocess could be
/// started, `exit_ok` whether it exited successfully, and `output` holds its
/// captured standard output.
pub open spec fn pass_screen_of(path: Seq<char>, launched: bool, exit_ok: bool, output: Seq<char>) -> Seq<char> {
    if !launched {
        error_screen_of(launch_failure_message_of(base_name_of(path)))
    } else if !exit_ok {
        error_screen_of(run_failure_message_of(base_name_of(path)))
    } else {
        success_screen_of(base_name_of(path), output)
    }
}

/// Performs the pure part of one render pass: classifies the run of the file
/// at `filepath` and draws the screen, naming the file by its last path
/// segment.
pub fn render_pass(filepath: &str, launched: bool, exit_ok: bool, output: String) -> (r: String)
    ensures
        r@ == pass_screen_of(filepath@, launched, exit_ok, output@),
{
    let name = crate::paths::base_name(filepath);
    let outcome = crate::executor::classify_run(launched, exit_ok, output);
    render_screen(&outcome, name.as_str())
}

// --- Properties of the screens ---

/// `t` occurs in `s` as a contiguous segment starting at `i`.
pub open spec fn seq_contains_at(s: Seq<char>, t: Seq<char>, i: int) -> bool {
    0 <= i && i + t.len() <= s.len() && s.subrange(i, i + t.len()) == t
}

/// `t` occurs somewhere in `s` as a contiguous segment.
pub open spec fn has_segment(s: Seq<char>, t: Seq<char>) -> bool {
    exists|i: int| seq_contains_at(s, t, i)
}

/// The shape of a success screen: it is the green banner, a cursor move to
/// the third row, and then the captured output verbatim; the banner carries
/// the bold green `success` label and the file's name.
pub proof fn lemma_success_screen_shape(name: Seq<char>, text: Seq<char>)
    ensures
        success_screen_of(name, text) == success_banner_of(name) + goto_seq(1, 3) + text,
        has_segment(success_banner_of(name), green_fg_seq() + bold_seq() + "success"@),
        has_segment(success_banner_of(name), name),
        success_screen_of(name, text).subrange(
            success_screen_of(name, text).len() - text.len(),
            success_screen_of(name, text).len() as int,
        ) == text,
{
    let banner = success_banner_of(name);
    let label = green_fg_seq() + bold_seq() + "success"@;
    let lead = clear_all_seq() + goto_seq(1, 1) + goto_seq(1, 1);
    assert(banner.subrange(lead.len() as int, lead.len() as int + label.len() as int) =~= label);
    assert(seq_contains_at(banner, label, lead.len() as int));
    let front = lead + label + reset_seq() + ": "@ + "Successfully executed the file `"@;
    assert(banner.subrange(front.len() as int, front.len() as int + name.len() as int) =~= name);
    assert(seq_contains_at(banner, name, front.len() as int));
    assert(success_screen_of(name, text).subrange(
        success_screen_of(name, text).len() - text.len(),
        success_screen_of(name, text).len() as int,
    ) =~= text);
}

/// The shape of an error screen: it carries the bold red `error` label and
/// ends with the message it was given.
pub proof fn lemma_error_screen_shape(message: Seq<char>)
    ensures
        has_segment(error_screen_of(message), red_fg_seq() + bold_seq() + "error"@),
        error_screen_of(message).subrange(
            error_screen_of(message).len() - message.len(),
            error_screen_of(message).len() as int,
        ) == message,
{
    let screen = error_screen_of(message);
    let label = red_fg_seq() + bold_seq() + "error"@;
    let lead = clear_all_seq() + goto_seq(1, 1) + goto_seq(1, 1);
    assert(screen.subrange(lead.len() as int, lead.len() as int + label.len() as int) =~= label);
    assert(seq_contains_at(screen, label, lead.len() as int));
    assert(screen.subrange(screen.len() - message.len(), screen.len() as int) =~= message);
}

/// A failed run draws the red error banner naming the file, and no part of
/// the interpreter's captured output reaches the screen: the failure screens
/// agree whatever was captured.
pub proof fn lemma_failure_screen_ignores_output(
    path: Seq<char>,
    exit1: bool,
    exit2: bool,
    out1: Seq<char>,
    out2: Seq<char>,
)
    ensures
        pass_screen_of(path, true, false, out1) == error_screen_of(
            run_failure_message_of(base_name_of(path)),
        ),
        has_segment(run_failure_message_of(base_name_of(path)), base_name_of(path)),
        pass_screen_of(path, true, false, out1) == pass_screen_of(path, true, false, out2),
        pass_screen_of(path, false, exit1, out1) == pass_screen_of(path, false, exit2, out2),
{
    let name = base_name_of(path);
    let message = run_failure_message_of(name);
    let opening = "An error occurred while executing `"@;
    assert(message.subrange(opening.len() as int, opening.len() as int + name.len() as int) =~= name);
    assert(seq_contains_at(message, name, opening.len() as int));
}

/// Rendering the same outcome twice draws the same screen, character for
/// character: the screen depends on the outcome and the file name alone.
pub proof fn lemma_render_deterministic(
    first: Seq<char>,
    second: Seq<char>,
    outcome: ExecOutcome,
    name: Seq<char>,
)
    requires
        first == screen_of(outcome, name),
        second == screen_of(outcome, name),
    ensures
        first == second,
{
}

} // verus!
