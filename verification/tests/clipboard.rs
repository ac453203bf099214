use snippet_shim::clipboard::{
    run_command_result, set_clipboard_through, ClipboardRun, CommandRunner, Mechanism, RunEvent,
};
use snippet_shim::{linux, macos, windows};

/// A stand-in runner: hands out scripted events in order and records which
/// command was attempted with which text.
struct ScriptedRunner {
    script: Vec<RunEvent>,
    attempted: Vec<(String, String)>,
}

impl ScriptedRunner {
    fn new(script: Vec<RunEvent>) -> ScriptedRunner {
        ScriptedRunner { script, attempted: Vec::new() }
    }
}

impl CommandRunner for ScriptedRunner {
    fn run_command(&mut self, mechanism: &Mechanism, text: &str) -> RunEvent {
        self.attempted
            .push((mechanism.command.clone(), String::from(text)));
        self.script.remove(0)
    }
}

fn spawn_failed(cause: &str) -> RunEvent {
    RunEvent::SpawnFailed(String::from(cause))
}

fn exited(success: bool, status: &str) -> RunEvent {
    RunEvent::Exited { success, status: String::from(status) }
}

#[test]
fn pass_succeeds_via_second_candidate() {
    let mut runner = ScriptedRunner::new(vec![spawn_failed("not found"), exited(true, "exit status: 0")]);
    let r = set_clipboard_through(linux::set_clipboard(String::from("snippet")), &mut runner);
    assert_eq!(r, Ok(()));
    let attempted: Vec<&str> = runner.attempted.iter().map(|(c, _)| c.as_str()).collect();
    assert_eq!(attempted, ["wl-copy", "xclip"]);
}

#[test]
fn pass_stops_at_first_success() {
    let mut runner = ScriptedRunner::new(vec![exited(true, "exit status: 0")]);
    let r = set_clipboard_through(linux::set_clipboard(String::from("snippet")), &mut runner);
    assert_eq!(r, Ok(()));
    assert_eq!(runner.attempted.len(), 1);
}

#[test]
fn pass_reports_the_last_cause_on_exhaustion() {
    let mut runner = ScriptedRunner::new(vec![
        spawn_failed("not found"),
        spawn_failed("not found"),
        exited(false, "exit status: 1"),
    ]);
    let r = set_clipboard_through(linux::set_clipboard(String::from("snippet")), &mut runner);
    assert_eq!(r, Err(String::from("xsel exited with status exit status: 1")));
    assert_eq!(runner.attempted.len(), 3);
}

#[test]
fn pass_without_candidates_reports_no_mechanism() {
    let mut runner = ScriptedRunner::new(Vec::new());
    let run = ClipboardRun::new(String::from("snippet"), Vec::new());
    let r = set_clipboard_through(run, &mut runner);
    assert_eq!(r, Err(String::from("no clipboard command available")));
    assert!(runner.attempted.is_empty());
}

#[test]
fn pass_hands_each_candidate_the_whole_text() {
    let text = "line one\nline two \u{00e9}";
    let mut runner = ScriptedRunner::new(vec![spawn_failed("not found"), exited(true, "exit status: 0")]);
    let r = set_clipboard_through(linux::set_clipboard(String::from(text)), &mut runner);
    assert_eq!(r, Ok(()));
    for (_, handed) in &runner.attempted {
        assert_eq!(handed, text);
    }
}

#[test]
fn pass_hands_over_empty_text_too() {
    let mut runner = ScriptedRunner::new(vec![exited(true, "exit status: 0")]);
    let r = set_clipboard_through(macos::set_clipboard(String::new()), &mut runner);
    assert_eq!(r, Ok(()));
    assert_eq!(runner.attempted, vec![(String::from("pbcopy"), String::new())]);
}

#[test]
fn single_candidate_exit_failure_is_the_operation_failure() {
    let mut runner = ScriptedRunner::new(vec![exited(false, "exit status: 1")]);
    let r = set_clipboard_through(windows::set_clipboard(String::from("x")), &mut runner);
    assert_eq!(r, Err(String::from("cmd exited with status exit status: 1")));
}

#[test]
fn single_candidate_spawn_failure_means_no_mechanism() {
    let mut runner = ScriptedRunner::new(vec![spawn_failed("permission denied")]);
    let r = set_clipboard_through(windows::set_clipboard(String::from("x")), &mut runner);
    assert_eq!(r, Err(String::from("no clipboard command available")));
}

#[test]
fn pass_with_only_spawn_failures_reports_no_mechanism() {
    let mut runner = ScriptedRunner::new(vec![
        spawn_failed("not found"),
        spawn_failed("not found"),
        spawn_failed("not found"),
    ]);
    let r = set_clipboard_through(linux::set_clipboard(String::from("snippet")), &mut runner);
    assert_eq!(r, Err(String::from("no clipboard command available")));
    assert_eq!(runner.attempted.len(), 3);
}

#[test]
fn one_started_candidate_keeps_the_last_cause() {
    let mut runner = ScriptedRunner::new(vec![
        exited(false, "exit status: 1"),
        spawn_failed("not found"),
        spawn_failed("no such file"),
    ]);
    let r = set_clipboard_through(linux::set_clipboard(String::from("snippet")), &mut runner);
    assert_eq!(r, Err(String::from("failed to spawn xsel: no such file")));
}

#[test]
fn macos_single_candidate() {
    let run = macos::set_clipboard(String::from("hello"));
    assert!(!run.is_finished());
    let mech = run.current();
    assert_eq!(mech.command, "pbcopy");
    assert!(mech.args.is_empty());
    assert_eq!(run.text().as_str(), "hello");
}

#[test]
fn windows_single_candidate() {
    let run = windows::set_clipboard(String::from("hello"));
    assert!(!run.is_finished());
    let mech = run.current();
    assert_eq!(mech.command, "cmd");
    assert_eq!(mech.args, vec![String::from("/C"), String::from("clip")]);
}

#[test]
fn linux_candidates_in_priority_order() {
    let mut run = linux::set_clipboard(String::from("hello"));
    assert_eq!(run.current().command, "wl-copy");
    assert!(run.current().args.is_empty());
    run.record_failure(String::from("failed to spawn wl-copy: not found"), false);
    assert_eq!(run.current().command, "xclip");
    assert_eq!(
        run.current().args,
        vec![String::from("-selection"), String::from("clipboard")]
    );
    run.record_failure(String::from("failed to spawn xclip: not found"), false);
    assert_eq!(run.current().command, "xsel");
    assert_eq!(
        run.current().args,
        vec![String::from("--clipboard"), String::from("--input")]
    );
}

#[test]
fn first_success_wins_after_failure() {
    let mut run = linux::set_clipboard(String::from("snippet"));
    run.record_failure(String::from("failed to spawn wl-copy: not found"), false);
    assert!(!run.is_finished());
    run.record_success();
    assert!(run.is_finished());
    assert_eq!(run.into_result(), Ok(()));
}

#[test]
fn immediate_success_skips_nothing() {
    let mut run = linux::set_clipboard(String::from("snippet"));
    run.record_success();
    assert!(run.is_finished());
    assert_eq!(run.into_result(), Ok(()));
}

#[test]
fn exhaustion_returns_last_error() {
    let mut run = linux::set_clipboard(String::from("snippet"));
    run.record_failure(String::from("failed to spawn wl-copy: not found"), false);
    run.record_failure(String::from("failed to spawn xclip: not found"), false);
    run.record_failure(String::from("xsel exited with status exit status: 1"), true);
    assert!(run.is_finished());
    assert_eq!(
        run.into_result(),
        Err(String::from("xsel exited with status exit status: 1"))
    );
}

#[test]
fn exhaustion_without_any_start_means_no_mechanism() {
    let mut run = linux::set_clipboard(String::from("snippet"));
    run.record_failure(String::from("failed to spawn wl-copy: not found"), false);
    run.record_failure(String::from("failed to spawn xclip: not found"), false);
    run.record_failure(String::from("failed to spawn xsel: not found"), false);
    assert!(run.is_finished());
    assert_eq!(
        run.into_result(),
        Err(String::from("no clipboard command available"))
    );
}

#[test]
fn no_candidates_reports_no_mechanism() {
    let run = ClipboardRun::new(String::from("snippet"), Vec::new());
    assert!(run.is_finished());
    assert_eq!(
        run.into_result(),
        Err(String::from("no clipboard command available"))
    );
}

#[test]
fn empty_text_is_a_valid_request() {
    let run = macos::set_clipboard(String::new());
    assert_eq!(run.text().as_str(), "");
    assert!(!run.is_finished());
}

#[test]
fn text_is_kept_across_attempts() {
    let mut run = linux::set_clipboard(String::from("keep me"));
    run.record_failure(String::from("failed to spawn wl-copy: not found"), false);
    assert_eq!(run.text().as_str(), "keep me");
    run.record_success();
    assert_eq!(run.text().as_str(), "keep me");
}

#[test]
fn custom_candidate_list() {
    let mech = Mechanism {
        command: String::from("mycopy"),
        args: vec![String::from("--stdin")],
    };
    let mut run = ClipboardRun::new(String::from("x"), vec![mech]);
    assert_eq!(run.current().command, "mycopy");
    run.record_failure(String::from("mycopy exited with status exit status: 2"), true);
    assert!(run.is_finished());
    assert_eq!(
        run.into_result(),
        Err(String::from("mycopy exited with status exit status: 2"))
    );
}

#[test]
fn spawn_failure_message() {
    let r = run_command_result("pbcopy", RunEvent::SpawnFailed(String::from("not found")));
    assert_eq!(r, Err(String::from("failed to spawn pbcopy: not found")));
}

#[test]
fn stdin_unavailable_message() {
    let r = run_command_result("pbcopy", RunEvent::StdinUnavailable);
    assert_eq!(r, Err(String::from("pbcopy stdin unavailable")));
}

#[test]
fn write_failure_message() {
    let r = run_command_result("xclip", RunEvent::WriteFailed(String::from("broken pipe")));
    assert_eq!(r, Err(String::from("failed to write to xclip: broken pipe")));
}

#[test]
fn wait_failure_message() {
    let r = run_command_result("xsel", RunEvent::WaitFailed(String::from("interrupted")));
    assert_eq!(r, Err(String::from("xsel wait failed: interrupted")));
}

#[test]
fn nonzero_exit_message() {
    let r = run_command_result(
        "cmd",
        RunEvent::Exited { success: false, status: String::from("exit code: 1") },
    );
    assert_eq!(r, Err(String::from("cmd exited with status exit code: 1")));
}

#[test]
fn zero_exit_is_success() {
    let r = run_command_result(
        "cmd",
        RunEvent::Exited { success: true, status: String::from("exit code: 0") },
    );
    assert_eq!(r, Ok(()));
}
