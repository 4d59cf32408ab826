use everything_codex::events::{error_message, translate_line, translate_value, AgentEvent};
use everything_codex::json::{Json, JsonNumber};

fn command_input(command: &str) -> Json {
    Json::Object(vec![("command".to_string(), Json::String(command.to_string()))])
}

#[test]
fn translates_text_and_tool_events() {
    assert_eq!(
        translate_line(r#"{"type":"item.completed","item":{"type":"agent_message","text":"done"}}"#),
        Some(AgentEvent::TextDelta { text: "done".into() })
    );
    assert!(matches!(
        translate_line(
            r#"{"type":"item.started","item":{"type":"command_execution","id":"1","command":"pwd"}}"#
        ),
        Some(AgentEvent::ToolStarted { .. })
    ));
}

#[test]
fn tool_started_carries_the_command() {
    assert_eq!(
        translate_line(r#"{"type":"item.started","item":{"type":"command_execution","id":"1","command":"pwd"}}"#),
        Some(AgentEvent::ToolStarted {
            id: "1".into(),
            name: "command_execution".into(),
            input: command_input("pwd"),
        })
    );
    assert_eq!(
        translate_line(r#"{"type":"item.started","item":{"type":"command_execution","id":"7"}}"#),
        Some(AgentEvent::ToolStarted {
            id: "7".into(),
            name: "command_execution".into(),
            input: command_input(""),
        })
    );
}

#[test]
fn item_started_needs_a_command_with_an_id() {
    assert_eq!(translate_line(r#"{"type":"item.started","item":{"type":"reasoning","id":"1"}}"#), None);
    assert_eq!(translate_line(r#"{"type":"item.started","item":{"type":"command_execution"}}"#), None);
    assert_eq!(translate_line(r#"{"type":"item.started"}"#), None);
}

#[test]
fn thread_started_reads_either_key() {
    assert_eq!(
        translate_line(r#"{"type":"thread.started","thread_id":"a"}"#),
        Some(AgentEvent::ThreadStarted { thread_id: "a".into() })
    );
    assert_eq!(
        translate_line(r#"{"type":"thread.started","threadId":"b"}"#),
        Some(AgentEvent::ThreadStarted { thread_id: "b".into() })
    );
    assert_eq!(
        translate_line(r#"{"type":"thread.started","thread_id":5,"threadId":"c"}"#),
        Some(AgentEvent::ThreadStarted { thread_id: "c".into() })
    );
    assert_eq!(translate_line(r#"{"type":"thread.started"}"#), None);
}

#[test]
fn agent_message_reads_message_then_text() {
    assert_eq!(
        translate_line(r#"{"type":"agent_message","message":"hi","text":"no"}"#),
        Some(AgentEvent::TextDelta { text: "hi".into() })
    );
    assert_eq!(
        translate_line(r#"{"type":"agent_message","text":"yo"}"#),
        Some(AgentEvent::TextDelta { text: "yo".into() })
    );
}

#[test]
fn command_completion_reports_output_and_exit_code() {
    assert_eq!(
        translate_line(r#"{"type":"item.completed","item":{"type":"command_execution","id":"2","aggregated_output":"out","exit_code":1}}"#),
        Some(AgentEvent::ToolCompleted { id: "2".into(), output: "out".into(), is_error: true })
    );
    assert_eq!(
        translate_line(r#"{"type":"item.completed","item":{"type":"command_execution","id":"2","stdout":"s","exit_code":0}}"#),
        Some(AgentEvent::ToolCompleted { id: "2".into(), output: "s".into(), is_error: false })
    );
    assert_eq!(
        translate_line(r#"{"type":"item.completed","item":{"type":"command_execution","id":"2","output":"o","stdout":"s"}}"#),
        Some(AgentEvent::ToolCompleted { id: "2".into(), output: "o".into(), is_error: false })
    );
    assert_eq!(
        translate_line(r#"{"type":"item.completed","item":{"type":"command_execution","id":"3","exit_code":-1}}"#),
        Some(AgentEvent::ToolCompleted { id: "3".into(), output: "".into(), is_error: true })
    );
    assert_eq!(
        translate_line(r#"{"type":"item.completed","item":{"type":"command_execution","id":"4","exit_code":18446744073709551615}}"#),
        Some(AgentEvent::ToolCompleted { id: "4".into(), output: "".into(), is_error: false })
    );
    assert_eq!(
        translate_line(r#"{"type":"item.completed","item":{"type":"command_execution","id":"5","exit_code":1.5}}"#),
        Some(AgentEvent::ToolCompleted { id: "5".into(), output: "".into(), is_error: false })
    );
    assert_eq!(
        translate_line(r#"{"type":"item.completed","item":{"type":"file_change","id":"6"}}"#),
        None
    );
}

#[test]
fn turn_completed_reports_usage() {
    assert_eq!(
        translate_line(r#"{"type":"turn.completed","usage":{"input_tokens":10,"output_tokens":3,"cached_input_tokens":-2}}"#),
        Some(AgentEvent::Usage {
            input_tokens: Some(10),
            output_tokens: Some(3),
            cached_input_tokens: None,
            reasoning_output_tokens: None,
        })
    );
    assert_eq!(
        translate_line(r#"{"type":"turn.completed"}"#),
        Some(AgentEvent::Usage {
            input_tokens: None,
            output_tokens: None,
            cached_input_tokens: None,
            reasoning_output_tokens: None,
        })
    );
}

#[test]
fn turn_failed_reports_a_message() {
    assert_eq!(
        translate_line(r#"{"type":"turn.failed","message":"top","error":{"message":"inner"}}"#),
        Some(AgentEvent::Failed { message: "top".into() })
    );
    assert_eq!(
        translate_line(r#"{"type":"turn.failed","error":{"message":"inner"}}"#),
        Some(AgentEvent::Failed { message: "inner".into() })
    );
    assert_eq!(
        translate_line(r#"{"type":"turn.failed"}"#),
        Some(AgentEvent::Failed { message: "Codex turn failed".into() })
    );
}

#[test]
fn lines_that_are_no_event() {
    assert_eq!(translate_line("not json"), None);
    assert_eq!(translate_line(""), None);
    assert_eq!(translate_line(r#"{"type":"session.configured"}"#), None);
    assert_eq!(translate_line(r#"{"kind":"agent_message","text":"x"}"#), None);
    assert_eq!(translate_line(r#"["agent_message"]"#), None);
}

#[test]
fn translates_a_built_value() {
    let raw = Json::Object(vec![
        ("type".to_string(), Json::String("turn.completed".to_string())),
        (
            "usage".to_string(),
            Json::Object(vec![(
                "output_tokens".to_string(),
                Json::Number(JsonNumber { as_u64: Some(4), as_i64: Some(4) }),
            )]),
        ),
    ]);
    assert_eq!(
        translate_value(&raw),
        Some(AgentEvent::Usage {
            input_tokens: None,
            output_tokens: Some(4),
            cached_input_tokens: None,
            reasoning_output_tokens: None,
        })
    );
    assert_eq!(error_message(&raw, "fallback"), "fallback");
}
