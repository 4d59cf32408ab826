use everything_codex::events::AgentEvent;
use everything_codex::monitor::{interruption, ExitOutcome, MonitorState, StderrCapture};
use everything_codex::registry::TaskStatus;

fn exited(success: bool) -> ExitOutcome {
    ExitOutcome::Exited { success, status: "exit status: 1".to_string() }
}

#[test]
fn completes_with_the_reported_thread() {
    let mut m = MonitorState::new();
    assert_eq!(
        m.on_line(r#"{"type":"thread.started","thread_id":"th"}"#),
        Some(AgentEvent::ThreadStarted { thread_id: "th".into() })
    );
    assert_eq!(m.on_line("garbage"), None);
    let (event, status) = m.conclude(exited(true), "");
    assert_eq!(event, Some(AgentEvent::Completed { thread_id: Some("th".into()) }));
    assert_eq!(status, TaskStatus::Completed);
}

#[test]
fn completes_without_a_thread() {
    let m = MonitorState::new();
    assert_eq!(m.conclude(exited(true), "warn"), (Some(AgentEvent::Completed { thread_id: None }), TaskStatus::Completed));
}

#[test]
fn failed_exit_reports_stderr() {
    let m = MonitorState::new();
    assert_eq!(
        m.conclude(exited(false), "  boom \n"),
        (Some(AgentEvent::Failed { message: "Codex exited with exit status: 1: boom".into() }), TaskStatus::Failed)
    );
    let m = MonitorState::new();
    assert_eq!(
        m.conclude(exited(false), " \n"),
        (Some(AgentEvent::Failed { message: "Codex exited with exit status: 1".into() }), TaskStatus::Failed)
    );
}

#[test]
fn streamed_failure_is_not_repeated() {
    let mut m = MonitorState::new();
    assert_eq!(
        m.on_line(r#"{"type":"turn.failed","message":"bad"}"#),
        Some(AgentEvent::Failed { message: "bad".into() })
    );
    assert_eq!(m.conclude(exited(true), "x"), (None, TaskStatus::Failed));
}

#[test]
fn read_error_fails_the_task() {
    let mut m = MonitorState::new();
    m.on_read_error("stream closed");
    assert_eq!(
        m.conclude(exited(true), ""),
        (Some(AgentEvent::Failed { message: "failed to read Codex output: stream closed".into() }), TaskStatus::Failed)
    );
}

#[test]
fn wait_failure_fails_the_task() {
    let m = MonitorState::new();
    assert_eq!(
        m.conclude(ExitOutcome::WaitFailed { message: "no child".to_string() }, ""),
        (Some(AgentEvent::Failed { message: "no child".into() }), TaskStatus::Failed)
    );
}

#[test]
fn stopping_interrupts() {
    assert_eq!(interruption(), (AgentEvent::Interrupted, TaskStatus::Interrupted));
}

#[test]
fn stderr_capture_keeps_lines_under_budget() {
    let mut c = StderrCapture::new();
    c.record("one");
    c.record("two");
    assert_eq!(c.text(), "one\ntwo\n");
    let mut c = StderrCapture::new();
    let long = "x".repeat(4094);
    c.record(&long);
    c.record("kept");
    c.record("dropped");
    let text = c.text();
    assert!(text.ends_with("kept\n"));
    assert_eq!(text.len(), 4095 + 5);
}
