use window_copy::{
    check_outcome, clipboard_text, decode_clipboard, Action, CopyError, Delays, Event,
    Orchestrator, Phase, RunOutcome, Step, GRACE_PERIOD_MS, SETTLE_DELAY_MS,
};

struct Trace {
    launches: Vec<Step>,
    sleeps: Vec<u64>,
    result: Result<String, CopyError>,
}

fn ok_with(stdout: &[u8]) -> RunOutcome {
    RunOutcome::Exited { success: true, stdout: stdout.to_vec(), stderr: Vec::new() }
}

fn failed_with(stderr: &[u8]) -> RunOutcome {
    RunOutcome::Exited { success: false, stdout: Vec::new(), stderr: stderr.to_vec() }
}

fn absent() -> RunOutcome {
    RunOutcome::LaunchFailed { reason: "No such file or directory (os error 2)".to_string() }
}

/// Drives a run against a fake runner that answers each launch with the next
/// of `outcomes`.
fn drive(delays: Delays, outcomes: Vec<RunOutcome>) -> Trace {
    let mut outcomes = outcomes.into_iter();
    let (mut run, mut action) = Orchestrator::start(delays);
    let mut launches = Vec::new();
    let mut sleeps = Vec::new();
    loop {
        let event = match action {
            Action::Sleep { ms } => {
                sleeps.push(ms);
                Event::Slept
            }
            Action::Launch { step } => {
                launches.push(step);
                Event::Ran { outcome: outcomes.next().expect("an unexpected launch") }
            }
            Action::Finish { result } => {
                assert!(run.is_finished());
                return Trace { launches, sleeps, result };
            }
        };
        assert!(run.accepts(&event));
        action = run.advance(event);
    }
}

#[test]
fn absent_automation_tool_fails_at_select_all() {
    let t = drive(Delays::none(), vec![absent()]);
    assert_eq!(t.launches, vec![Step::SelectAll]);
    match t.result {
        Err(CopyError::ToolLaunch { step, reason }) => {
            assert_eq!(step, Step::SelectAll);
            assert!(reason.contains("os error 2"));
        }
        other => panic!("unexpected result {:?}", other),
    }
}

#[test]
fn select_all_without_window_fails_with_its_stderr() {
    let t = drive(Delays::none(), vec![failed_with(b"no window")]);
    assert_eq!(t.launches, vec![Step::SelectAll]);
    let e = t.result.unwrap_err();
    assert!(matches!(e, CopyError::ToolExecution { step: Step::SelectAll, .. }));
    assert!(e.message().contains("no window"));
    assert_eq!(e.message(), "`xdotool key ctrl+a` failed: no window");
}

#[test]
fn successful_run_returns_clipboard_text() {
    let t = drive(Delays::none(), vec![ok_with(b""), ok_with(b""), ok_with(b"hello world")]);
    assert_eq!(t.launches, vec![Step::SelectAll, Step::Copy, Step::ReadClipboard]);
    assert_eq!(t.result.unwrap(), "hello world");
}

#[test]
fn successful_run_keeps_multibyte_text() {
    let t = drive(Delays::none(), vec![ok_with(b""), ok_with(b""), ok_with("日本語入力".as_bytes())]);
    assert_eq!(t.result.unwrap(), "日本語入力");
}

#[test]
fn invalid_clipboard_bytes_are_a_decode_error() {
    let t = drive(Delays::none(), vec![ok_with(b""), ok_with(b""), ok_with(&[0xff])]);
    assert_eq!(t.launches.len(), 3);
    assert!(matches!(t.result, Err(CopyError::TextDecode { .. })));
}

#[test]
fn invalid_clipboard_bytes_are_a_decode_error_at_any_length() {
    let mut long = vec![b'a'; 10_000];
    long.push(0xc3);
    let t = drive(Delays::none(), vec![ok_with(b""), ok_with(b""), ok_with(&long)]);
    let e = t.result.unwrap_err();
    assert!(matches!(e, CopyError::TextDecode { .. }));
    assert!(e.message().starts_with("clipboard contents are not valid text: "));
}

#[test]
fn copy_failure_skips_clipboard_read() {
    let t = drive(Delays::none(), vec![ok_with(b""), failed_with(b"bad")]);
    assert_eq!(t.launches, vec![Step::SelectAll, Step::Copy]);
    let e = t.result.unwrap_err();
    assert_eq!(e.step(), Some(Step::Copy));
    assert_eq!(e.message(), "`xdotool key ctrl+c` failed: bad");
}

#[test]
fn clipboard_tool_absent_is_launch_error() {
    let t = drive(Delays::none(), vec![ok_with(b""), ok_with(b""), absent()]);
    let e = t.result.unwrap_err();
    assert_eq!(e.step(), Some(Step::ReadClipboard));
    assert_eq!(
        e.message(),
        "could not launch `xclip -selection clipboard -o`: No such file or directory (os error 2)"
    );
}

#[test]
fn clipboard_read_failure_is_execution_error() {
    let t = drive(Delays::none(), vec![ok_with(b""), ok_with(b""), failed_with(b"Error: target STRING not available")]);
    match t.result {
        Err(CopyError::ToolExecution { step, stderr }) => {
            assert_eq!(step, Step::ReadClipboard);
            assert_eq!(stderr, "Error: target STRING not available");
        }
        other => panic!("unexpected result {:?}", other),
    }
}

#[test]
fn invalid_stderr_is_replaced_not_copied() {
    let t = drive(Delays::none(), vec![failed_with(&[b'x', 0xff, b'y'])]);
    match t.result {
        Err(CopyError::ToolExecution { stderr, .. }) => assert_eq!(stderr, "x\u{fffd}y"),
        other => panic!("unexpected result {:?}", other),
    }
}

#[test]
fn successful_run_waits_grace_and_two_settles() {
    let t = drive(Delays::standard(), vec![ok_with(b""), ok_with(b""), ok_with(b"x")]);
    assert_eq!(t.sleeps, vec![3000, 100, 100]);
    assert!(t.sleeps.iter().sum::<u64>() >= 3200);
    assert_eq!(GRACE_PERIOD_MS + 2 * SETTLE_DELAY_MS, 3200);
}

#[test]
fn failed_run_stops_waiting_at_failure() {
    let t = drive(Delays::standard(), vec![ok_with(b""), absent()]);
    assert_eq!(t.sleeps, vec![3000, 100]);
}

#[test]
fn custom_delays_are_requested() {
    let t = drive(Delays { grace_ms: 7, settle_ms: 2 }, vec![ok_with(b""), ok_with(b""), ok_with(b"")]);
    assert_eq!(t.sleeps, vec![7, 2, 2]);
    assert_eq!(t.result.unwrap(), "");
}

#[test]
fn finished_run_accepts_nothing() {
    let (mut run, _) = Orchestrator::start(Delays::none());
    assert_eq!(run.phase(), Phase::AwaitGrace);
    assert!(!run.accepts(&Event::Ran { outcome: absent() }));
    let a = run.advance(Event::Slept);
    assert!(matches!(a, Action::Launch { step: Step::SelectAll }));
    assert_eq!(run.phase(), Phase::AwaitSelectAll);
    assert!(!run.accepts(&Event::Slept));
    run.advance(Event::Ran { outcome: absent() });
    assert_eq!(run.phase(), Phase::Finished { succeeded: false });
    assert!(!run.accepts(&Event::Slept));
    assert!(!run.accepts(&Event::Ran { outcome: ok_with(b"") }));
    assert_eq!(run.delays(), Delays::none());
}

#[test]
fn steps_name_their_commands() {
    assert_eq!(Step::SelectAll.program(), "xdotool");
    assert_eq!(Step::SelectAll.args(), vec!["key", "ctrl+a"]);
    assert_eq!(Step::Copy.program(), "xdotool");
    assert_eq!(Step::Copy.args(), vec!["key", "ctrl+c"]);
    assert_eq!(Step::ReadClipboard.program(), "xclip");
    assert_eq!(Step::ReadClipboard.args(), vec!["-selection", "clipboard", "-o"]);
    assert_eq!(Step::ReadClipboard.label(), "xclip -selection clipboard -o");
}

#[test]
fn check_outcome_passes_stdout_on_success() {
    assert_eq!(check_outcome(Step::Copy, ok_with(b"abc")).unwrap(), b"abc".to_vec());
    let e = check_outcome(Step::Copy, failed_with(b"e")).unwrap_err();
    assert!(matches!(e, CopyError::ToolExecution { step: Step::Copy, .. }));
}

#[test]
fn decode_clipboard_decodes_utf8() {
    assert_eq!(decode_clipboard(b"hello world".to_vec()).unwrap(), "hello world");
    assert!(matches!(decode_clipboard(vec![0x80]), Err(CopyError::TextDecode { .. })));
}

#[test]
fn clipboard_text_maps_decoder_result() {
    assert_eq!(clipboard_text(String::from_utf8(b"ok".to_vec())).unwrap(), "ok");
    let e = clipboard_text(String::from_utf8(vec![b'a', 0xff])).unwrap_err();
    match &e {
        CopyError::TextDecode { reason } => assert!(reason.contains("index 1")),
        other => panic!("unexpected error {:?}", other),
    }
    assert_eq!(e.step(), None);
}
