use mlwatch::executor::ExecOutcome;
use mlwatch::executor::classify_run;
use mlwatch::executor::interpreter_command;
use mlwatch::paths::base_name;
use mlwatch::paths::has_ml_suffix;
use mlwatch::paths::resolve_path;
use mlwatch::render::launch_failure_message;
use mlwatch::render::render_pass;
use mlwatch::render::render_screen;
use mlwatch::render::run_failure_message;
use mlwatch::render::show_error;
use mlwatch::render::show_success;
use mlwatch::render::success_message;
use mlwatch::watch::EventClass;
use mlwatch::watch::event_triggers_render;
use mlwatch::watch::live_mode_requested;

const CLEAR: &str = "\x1b[2J";
const HOME: &str = "\x1b[1;1H";
const ROW3: &str = "\x1b[3;1H";
const RED: &str = "\x1b[38;5;1m";
const GREEN: &str = "\x1b[38;5;2m";
const BOLD: &str = "\x1b[1m";
const RESET: &str = "\x1b[m";

#[test]
fn suffix_accepts_ml_paths() {
    assert!(has_ml_suffix("foo.ml"));
    assert!(has_ml_suffix(".ml"));
    assert!(has_ml_suffix("/home/user/project/main.ml"));
}

#[test]
fn suffix_rejects_other_paths() {
    assert!(!has_ml_suffix("foo.rs"));
    assert!(!has_ml_suffix("ml"));
    assert!(!has_ml_suffix(""));
    assert!(!has_ml_suffix("foo.mll"));
    assert!(!has_ml_suffix("foo.ml/"));
}

#[test]
fn base_name_takes_last_segment() {
    assert_eq!(base_name("/home/user/foo.ml"), "foo.ml");
    assert_eq!(base_name("foo.ml"), "foo.ml");
    assert_eq!(base_name("a//b.ml"), "b.ml");
}

#[test]
fn base_name_edge_cases() {
    assert_eq!(base_name(""), "");
    assert_eq!(base_name("dir/"), "");
    assert_eq!(base_name("/"), "");
}

#[test]
fn command_pipes_use_directive_into_ocaml() {
    assert_eq!(
        interpreter_command("/home/user/foo.ml"),
        "echo '#use \"/home/user/foo.ml\";;' | ocaml"
    );
}

#[test]
fn resolve_accepts_existing_ml_file() {
    let arg = String::from("foo.ml");
    let canonical = String::from("/home/user/foo.ml");
    let r = resolve_path(Some(&arg), true, Some(canonical));
    assert_eq!(r, Some(String::from("/home/user/foo.ml")));
}

#[test]
fn resolve_rejects_bad_suffix() {
    let arg = String::from("foo.txt");
    let canonical = String::from("/home/user/foo.txt");
    assert_eq!(resolve_path(Some(&arg), true, Some(canonical)), None);
}

#[test]
fn resolve_rejects_missing_file() {
    let arg = String::from("missing.ml");
    assert_eq!(resolve_path(Some(&arg), false, None), None);
}

#[test]
fn resolve_rejects_absent_argument() {
    assert_eq!(resolve_path(None, false, None), None);
}

#[test]
fn resolve_rejects_failed_canonicalization() {
    let arg = String::from("foo.ml");
    assert_eq!(resolve_path(Some(&arg), true, None), None);
}

#[test]
fn live_flag_is_exact_match() {
    let live = String::from("--live");
    let other = String::from("--liv");
    let padded = String::from("--live ");
    assert!(live_mode_requested(Some(&live)));
    assert!(!live_mode_requested(Some(&other)));
    assert!(!live_mode_requested(Some(&padded)));
    assert!(!live_mode_requested(None));
}

#[test]
fn modify_event_triggers_one_render() {
    assert!(event_triggers_render(EventClass::Modify));
}

#[test]
fn other_event_triggers_none() {
    assert!(!event_triggers_render(EventClass::Other));
}

#[test]
fn classification_of_runs() {
    assert!(matches!(classify_run(false, false, String::new()), ExecOutcome::LaunchFailure));
    assert!(matches!(classify_run(false, true, String::new()), ExecOutcome::LaunchFailure));
    assert!(matches!(classify_run(true, false, String::new()), ExecOutcome::RunFailure));
    match classify_run(true, true, String::from("42\n")) {
        ExecOutcome::Success { output } => assert_eq!(output, "42\n"),
        _ => panic!("a successful run must classify as a success"),
    }
}

#[test]
fn messages_name_the_file() {
    assert_eq!(launch_failure_message("foo.ml"), "Could not execute the file `foo.ml`");
    assert_eq!(run_failure_message("bad.ml"), "An error occurred while executing `bad.ml`");
    assert_eq!(success_message("foo.ml"), "Successfully executed the file `foo.ml`:");
}

#[test]
fn error_screen_exact_bytes() {
    let screen = show_error("boom");
    let expected = format!("{CLEAR}{HOME}{HOME}{RED}{BOLD}error{RESET}: boom");
    assert_eq!(screen, expected);
}

#[test]
fn success_screen_exact_bytes() {
    let screen = show_success("foo.ml", "42\n");
    let expected = format!(
        "{CLEAR}{HOME}{HOME}{GREEN}{BOLD}success{RESET}: \
         Successfully executed the file `foo.ml`:{ROW3}42\n"
    );
    assert_eq!(screen, expected);
}

#[test]
fn successful_pass_shows_banner_then_output() {
    let screen = render_pass("/home/user/foo.ml", true, true, String::from("42\n"));
    let banner = format!(
        "{CLEAR}{HOME}{HOME}{GREEN}{BOLD}success{RESET}: \
         Successfully executed the file `foo.ml`:"
    );
    assert!(screen.starts_with(&banner));
    assert!(screen.ends_with("42\n"));
    assert_eq!(screen, format!("{banner}{ROW3}42\n"));
}

#[test]
fn failed_pass_hides_interpreter_output() {
    let screen = render_pass("/home/user/bad.ml", true, false, String::from("Syntax error"));
    let expected = format!(
        "{CLEAR}{HOME}{HOME}{RED}{BOLD}error{RESET}: \
         An error occurred while executing `bad.ml`"
    );
    assert_eq!(screen, expected);
    assert!(!screen.contains("Syntax error"));
}

#[test]
fn launch_failure_pass_names_the_file() {
    let screen = render_pass("/home/user/foo.ml", false, false, String::new());
    let expected = format!(
        "{CLEAR}{HOME}{HOME}{RED}{BOLD}error{RESET}: \
         Could not execute the file `foo.ml`"
    );
    assert_eq!(screen, expected);
}

#[test]
fn rendering_twice_is_identical() {
    let outcome = ExecOutcome::Success { output: String::from("42\n") };
    let first = render_screen(&outcome, "foo.ml");
    let second = render_screen(&outcome, "foo.ml");
    assert_eq!(first, second);
}
