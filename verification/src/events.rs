use vstd::prelude::*;
use crate::json::{Json, json_parse, parse_json, json_get, json_at, json_str, json_u64, json_i64, first_string, get, get_str, get_i64, string_at, number_at};
use crate::text::str_eq;

verus! {

/// A stable event of a running task, as the runtime streams it to its host.
#[derive(Debug, PartialEq)]
#[allow(inconsistent_fields)]
pub enum AgentEvent {
    ThreadStarted { thread_id: String },
    TextDelta { text: String },
    ToolStarted { id: String, name: String, input: Json },
    ToolCompleted { id: String, output: String, is_error: bool },
    Usage {
        input_tokens: Option<u64>,
        output_tokens: Option<u64>,
        cached_input_tokens: Option<u64>,
        reasoning_output_tokens: Option<u64>,
    },
    Completed { thread_id: Option<String> },
    Failed { message: String },
    Interrupted,
}

/// An event as values; a tool start is described by the command it runs.
#[allow(inconsistent_fields)]
pub enum EventView {
    ThreadStarted { thread_id: Seq<char> },
    TextDelta { text: Seq<char> },
    ToolStarted { id: Seq<char>, name: Seq<char>, command: Seq<char> },
    ToolCompleted { id: Seq<char>, output: Seq<char>, is_error: bool },
    Usage {
        input_tokens: Option<u64>,
        output_tokens: Option<u64>,
        cached_input_tokens: Option<u64>,
        reasoning_output_tokens: Option<u64>,
    },
    Completed { thread_id: Option<Seq<char>> },
    Failed { message: Seq<char> },
    Interrupted,
}

/// The input of a command tool: the object `{"command": command}`.
pub open spec fn is_command_input(input: Json, command: Seq<char>) -> bool {
    &&& input matches Json::Object(entries)
    &&& entries@.len() == 1
    &&& entries@[0].0@ == "command"@
    &&& json_str(Some(entries@[0].1)) == Some(command)
}

pub open spec fn opt_view(s: Option<String>) -> Option<Seq<char>> {
    match s {
        Some(s) => Some(s@),
        None => None,
    }
}

/// `event` is the event that `view` describes.
pub open spec fn describes(event: AgentEvent, view: EventView) -> bool {
    match view {
        EventView::ThreadStarted { thread_id } => event matches AgentEvent::ThreadStarted {
            thread_id: t,
        } && t@ == thread_id,
        EventView::TextDelta { text } => event matches AgentEvent::TextDelta { text: t } && t@
            == text,
        EventView::ToolStarted { id, name, command } => event matches AgentEvent::ToolStarted {
            id: i,
            name: n,
            input,
        } && i@ == id && n@ == name && is_command_input(input, command),
        EventView::ToolCompleted { id, output, is_error } => event matches AgentEvent::ToolCompleted {
            id: i,
            output: o,
            is_error: e,
        } && i@ == id && o@ == output && e == is_error,
        EventView::Usage {
            input_tokens,
            output_tokens,
            cached_input_tokens,
            reasoning_output_tokens,
        } => event matches AgentEvent::Usage { input_tokens: a, output_tokens: b, cached_input_tokens: c, reasoning_output_tokens: d }
            && a == input_tokens && b == output_tokens && c == cached_input_tokens && d
            == reasoning_output_tokens,
        EventView::Completed { thread_id } => event matches AgentEvent::Completed { thread_id: t }
            && opt_view(t) == thread_id,
        EventView::Failed { message } => event matches AgentEvent::Failed { message: m } && m@
            == message,
        EventView::Interrupted => event is Interrupted,
    }
}

/// `event` is absent exactly when `view` is, and otherwise described by it.
pub open spec fn event_matches(event: Option<AgentEvent>, view: Option<EventView>) -> bool {
    match view {
        None => event is None,
        Some(v) => event matches Some(e) && describes(e, v),
    }
}

/// The message of a failure: the top-level `message`, else `error.message`,
/// else `fallback`.
pub open spec fn error_text(raw: Json, fallback: Seq<char>) -> Seq<char> {
    match json_str(json_get(raw, "message"@)) {
        Some(s) => s,
        None => match json_get(raw, "error"@) {
            Some(error) => match json_str(json_get(error, "message"@)) {
                Some(s) => s,
                None => fallback,
            },
            None => fallback,
        },
    }
}

/// An `item.started` line: only command executions with an `id` are events.
pub open spec fn item_started_view(raw: Json) -> Option<EventView> {
    match json_get(raw, "item"@) {
        None => None,
        Some(item) => match json_str(json_get(item, "type"@)) {
            None => None,
            Some(kind) => if kind != "command_execution"@ {
                None
            } else {
                match json_str(json_get(item, "id"@)) {
                    None => None,
                    Some(id) => Some(
                        EventView::ToolStarted {
                            id,
                            name: "command_execution"@,
                            command: match json_str(json_get(item, "command"@)) {
                                Some(c) => c,
                                None => ""@,
                            },
                        },
                    ),
                }
            },
        },
    }
}

/// An `item.completed` line: agent messages become text, command executions
/// with an `id` become completed tools, failed when the exit code is a nonzero `i64`.
pub open spec fn item_completed_view(raw: Json) -> Option<EventView> {
    match json_get(raw, "item"@) {
        None => None,
        Some(item) => match json_str(json_get(item, "type"@)) {
            None => None,
            Some(kind) => if kind == "agent_message"@ {
                match first_string(item, seq!["text"@, "message"@]) {
                    Some(text) => Some(EventView::TextDelta { text }),
                    None => None,
                }
            } else if kind == "command_execution"@ {
                match json_str(json_get(item, "id"@)) {
                    None => None,
                    Some(id) => Some(
                        EventView::ToolCompleted {
                            id,
                            output: match first_string(
                                item,
                                seq!["output"@, "aggregated_output"@, "stdout"@],
                            ) {
                                Some(o) => o,
                                None => ""@,
                            },
                            is_error: match json_i64(json_get(item, "exit_code"@)) {
                                Some(code) => code != 0,
                                None => false,
                            },
                        },
                    ),
                }
            } else {
                None
            },
        },
    }
}

/// The event a parsed Codex JSONL line stands for, by its `type`; `None` for a
/// line that is no event.
pub open spec fn event_of(raw: Json) -> Option<EventView> {
    match json_str(json_get(raw, "type"@)) {
        None => None,
        Some(kind) => if kind == "thread.started"@ {
            match first_string(raw, seq!["thread_id"@, "threadId"@]) {
                Some(thread_id) => Some(EventView::ThreadStarted { thread_id }),
                None => None,
            }
        } else if kind == "agent_message"@ {
            match first_string(raw, seq!["message"@, "text"@]) {
                Some(text) => Some(EventView::TextDelta { text }),
                None => None,
            }
        } else if kind == "item.started"@ {
            item_started_view(raw)
        } else if kind == "item.completed"@ {
            item_completed_view(raw)
        } else if kind == "turn.completed"@ {
            Some(
                EventView::Usage {
                    input_tokens: json_u64(json_at(raw, seq!["usage"@, "input_tokens"@])),
                    output_tokens: json_u64(json_at(raw, seq!["usage"@, "output_tokens"@])),
                    cached_input_tokens: json_u64(
                        json_at(raw, seq!["usage"@, "cached_input_tokens"@]),
                    ),
                    reasoning_output_tokens: json_u64(
                        json_at(raw, seq!["usage"@, "reasoning_output_tokens"@]),
                    ),
                },
            )
        } else if kind == "turn.failed"@ {
            Some(EventView::Failed { message: error_text(raw, "Codex turn failed"@) })
        } else {
            None
        },
    }
}

/// The event a Codex JSONL line stands for, with what serde_json parses it into.
pub open spec fn line_event(line: Seq<char>) -> Option<EventView> {
    match json_parse(line) {
        Some(raw) => event_of(raw),
        None => None,
    }
}

/// The failure message of a parsed line (see `error_text`).
pub fn error_message(raw: &Json, fallback: &str) -> (r: String)
    ensures
        r@ == error_text(*raw, fallback@),
{
    match get_str(raw, "message") {
        Some(m) => String::from_str(m),
        None => match get(raw, "error") {
            Some(error) => match get_str(error, "message") {
                Some(m) => String::from_str(m),
                None => String::from_str(fallback),
            },
            None => String::from_str(fallback),
        },
    }
}

fn command_input(command: &str) -> (input: Json)
    ensures
        is_command_input(input, command@),
{
    let mut entries: Vec<(String, Json)> = Vec::new();
    entries.push((String::from_str("command"), Json::String(String::from_str(command))));
    Json::Object(entries)
}

fn translate_item_started(raw: &Json) -> (r: Option<AgentEvent>)
    ensures
        event_matches(r, item_started_view(*raw)),
{
    let item = match get(raw, "item") {
        Some(item) => item,
        None => return None,
    };
    let kind = match get_str(item, "type") {
        Some(kind) => kind,
        None => return None,
    };
    if !str_eq(kind, "command_execution") {
        return None;
    }
    let id = match get_str(item, "id") {
        Some(id) => id,
        None => return None,
    };
    let command = match get_str(item, "command") {
        Some(c) => c,
        None => "",
    };
    Some(
        AgentEvent::ToolStarted {
            id: String::from_str(id),
            name: String::from_str("command_execution"),
            input: command_input(command),
        },
    )
}

fn translate_item_completed(raw: &Json) -> (r: Option<AgentEvent>)
    ensures
        event_matches(r, item_completed_view(*raw)),
{
    let item = match get(raw, "item") {
        Some(item) => item,
        None => return None,
    };
    let kind = match get_str(item, "type") {
        Some(kind) => kind,
        None => return None,
    };
    if str_eq(kind, "agent_message") {
        let keys: [&str; 2] = ["text", "message"];
        let keys = keys.as_slice();
        assert(keys.deep_view() =~= seq!["text"@, "message"@]);
        match string_at(item, keys) {
            Some(text) => Some(AgentEvent::TextDelta { text }),
            None => None,
        }
    } else if str_eq(kind, "command_execution") {
        let id = match get_str(item, "id") {
            Some(id) => id,
            None => return None,
        };
        let keys: [&str; 3] = ["output", "aggregated_output", "stdout"];
        let keys = keys.as_slice();
        assert(keys.deep_view() =~= seq!["output"@, "aggregated_output"@, "stdout"@]);
        let output = match string_at(item, keys) {
            Some(o) => o,
            None => String::from_str(""),
        };
        let is_error = match get_i64(item, "exit_code") {
            Some(code) => code != 0,
            None => false,
        };
        Some(AgentEvent::ToolCompleted { id: String::from_str(id), output, is_error })
    } else {
        None
    }
}

/// The event a parsed Codex JSONL line stands for.
pub fn translate_value(raw: &Json) -> (r: Option<AgentEvent>)
    ensures
        event_matches(r, event_of(*raw)),
{
    let kind = match get_str(raw, "type") {
        Some(kind) => kind,
        None => return None,
    };
    if str_eq(kind, "thread.started") {
        let keys: [&str; 2] = ["thread_id", "threadId"];
        let keys = keys.as_slice();
        assert(keys.deep_view() =~= seq!["thread_id"@, "threadId"@]);
        match string_at(raw, keys) {
            Some(thread_id) => Some(AgentEvent::ThreadStarted { thread_id }),
            None => None,
        }
    } else if str_eq(kind, "agent_message") {
        let keys: [&str; 2] = ["message", "text"];
        let keys = keys.as_slice();
        assert(keys.deep_view() =~= seq!["message"@, "text"@]);
        match string_at(raw, keys) {
            Some(text) => Some(AgentEvent::TextDelta { text }),
            None => None,
        }
    } else if str_eq(kind, "item.started") {
        translate_item_started(raw)
    } else if str_eq(kind, "item.completed") {
        translate_item_completed(raw)
    } else if str_eq(kind, "turn.completed") {
        let p1: [&str; 2] = ["usage", "input_tokens"];
        let p1 = p1.as_slice();
        assert(p1.deep_view() =~= seq!["usage"@, "input_tokens"@]);
        let p2: [&str; 2] = ["usage", "output_tokens"];
        let p2 = p2.as_slice();
        assert(p2.deep_view() =~= seq!["usage"@, "output_tokens"@]);
        let p3: [&str; 2] = ["usage", "cached_input_tokens"];
        let p3 = p3.as_slice();
        assert(p3.deep_view() =~= seq!["usage"@, "cached_input_tokens"@]);
        let p4: [&str; 2] = ["usage", "reasoning_output_tokens"];
        let p4 = p4.as_slice();
        assert(p4.deep_view() =~= seq!["usage"@, "reasoning_output_tokens"@]);
        Some(
            AgentEvent::Usage {
                input_tokens: number_at(raw, p1),
                output_tokens: number_at(raw, p2),
                cached_input_tokens: number_at(raw, p3),
                reasoning_output_tokens: number_at(raw, p4),
            },
        )
    } else if str_eq(kind, "turn.failed") {
        Some(AgentEvent::Failed { message: error_message(raw, "Codex turn failed") })
    } else {
        None
    }
}

/// The event one line of Codex's JSONL output stands for;
/// `None` for a line that is not JSON or is no event.
pub fn translate_line(line: &str) -> (r: Option<AgentEvent>)
    ensures
        event_matches(r, line_event(line@)),
{
    match parse_json(line) {
        Some(raw) => translate_value(&raw),
        None => None,
    }
}

/// The six kinds of Codex output lines that stand for events are distinct.
proof fn lemma_kinds_distinct()
    ensures
        "thread.started"@ != "agent_message"@,
        "thread.started"@ != "item.started"@,
        "thread.started"@ != "item.completed"@,
        "thread.started"@ != "turn.completed"@,
        "thread.started"@ != "turn.failed"@,
        "agent_message"@ != "item.started"@,
        "agent_message"@ != "item.completed"@,
        "agent_message"@ != "turn.completed"@,
        "agent_message"@ != "turn.failed"@,
        "item.started"@ != "item.completed"@,
        "item.started"@ != "turn.completed"@,
        "item.started"@ != "turn.failed"@,
        "item.completed"@ != "turn.completed"@,
        "item.completed"@ != "turn.failed"@,
        "turn.completed"@ != "turn.failed"@,
        "command_execution"@ != "agent_message"@,
{
    reveal_strlit("thread.started");
    reveal_strlit("agent_message");
    reveal_strlit("item.started");
    reveal_strlit("item.completed");
    reveal_strlit("turn.completed");
    reveal_strlit("turn.failed");
    reveal_strlit("command_execution");
    assert("thread.started"@[0] != "agent_message"@[0]);
    assert("thread.started"@[0] != "item.started"@[0]);
    assert("thread.started"@[0] != "item.completed"@[0]);
    assert("thread.started"@[1] != "turn.completed"@[1]);
    assert("thread.started"@[1] != "turn.failed"@[1]);
    assert("agent_message"@[0] != "item.started"@[0]);
    assert("agent_message"@[0] != "item.completed"@[0]);
    assert("agent_message"@[0] != "turn.completed"@[0]);
    assert("agent_message"@[0] != "turn.failed"@[0]);
    assert("item.started"@[5] != "item.completed"@[5]);
    assert("item.started"@[0] != "turn.completed"@[0]);
    assert("item.started"@[0] != "turn.failed"@[0]);
    assert("item.completed"@[0] != "turn.completed"@[0]);
    assert("item.completed"@[0] != "turn.failed"@[0]);
    assert("turn.completed"@[5] != "turn.failed"@[5]);
    assert("command_execution"@[0] != "agent_message"@[0]);
}

/// The `type` of a parsed line, when it is a string.
pub open spec fn kind_of(raw: Json) -> Option<Seq<char>> {
    json_str(json_get(raw, "type"@))
}

/// The string member `key` of `value`.
pub open spec fn str_member(value: Json, key: Seq<char>) -> Option<Seq<char>> {
    json_str(json_get(value, key))
}

/// The counter `usage.key` of a parsed line, when it is a `u64`.
pub open spec fn usage_count(raw: Json, key: Seq<char>) -> Option<u64> {
    match json_get(raw, "usage"@) {
        Some(usage) => json_u64(json_get(usage, key)),
        None => None,
    }
}

/// A completed turn reports its usage, each counter read from the member of
/// `usage` with the same name.
pub proof fn law_usage_fields_by_name(raw: Json)
    requires
        kind_of(raw) == Some("turn.completed"@),
    ensures
        event_of(raw) == Some(
            EventView::Usage {
                input_tokens: usage_count(raw, "input_tokens"@),
                output_tokens: usage_count(raw, "output_tokens"@),
                cached_input_tokens: usage_count(raw, "cached_input_tokens"@),
                reasoning_output_tokens: usage_count(raw, "reasoning_output_tokens"@),
            },
        ),
{
    lemma_kinds_distinct();
    reveal_with_fuel(json_at, 3);
}

/// A failed turn is always reported as a failure, with the turn's `message`,
/// else its `error.message`, else `Codex turn failed`.
pub proof fn law_turn_failed_message(raw: Json)
    requires
        kind_of(raw) == Some("turn.failed"@),
    ensures
        str_member(raw, "message"@) matches Some(m) ==> event_of(raw) == Some(EventView::Failed { message: m }),
        json_get(raw, "error"@) matches Some(error) ==> (str_member(error, "message"@) matches Some(m)
            ==> (str_member(raw, "message"@) is None ==> event_of(raw) == Some(EventView::Failed { message: m }))),
        str_member(raw, "message"@) is None && (json_get(raw, "error"@) matches Some(error) ==> str_member(error, "message"@) is None)
            ==> event_of(raw) == Some(EventView::Failed { message: "Codex turn failed"@ }),
{
    lemma_kinds_distinct();
}

/// A started thread is reported with its `thread_id`, else its `threadId`;
/// without either as a string the line is no event.
pub proof fn law_thread_started(raw: Json)
    requires
        kind_of(raw) == Some("thread.started"@),
    ensures
        str_member(raw, "thread_id"@) matches Some(t) ==> event_of(raw) == Some(EventView::ThreadStarted { thread_id: t }),
        str_member(raw, "threadId"@) matches Some(t) ==> (str_member(raw, "thread_id"@) is None
            ==> event_of(raw) == Some(EventView::ThreadStarted { thread_id: t })),
        str_member(raw, "thread_id"@) is None && str_member(raw, "threadId"@) is None ==> event_of(raw) is None,
{
    lemma_kinds_distinct();
    reveal_with_fuel(first_string, 3);
    assert(seq!["thread_id"@, "threadId"@].drop_first() =~= seq!["threadId"@]);
    assert(seq!["threadId"@].drop_first() =~= Seq::<Seq<char>>::empty());
}

/// An agent message is reported as text: its `message`, else its `text`;
/// without either as a string the line is no event.
pub proof fn law_agent_message(raw: Json)
    requires
        kind_of(raw) == Some("agent_message"@),
    ensures
        str_member(raw, "message"@) matches Some(t) ==> event_of(raw) == Some(EventView::TextDelta { text: t }),
        str_member(raw, "text"@) matches Some(t) ==> (str_member(raw, "message"@) is None
            ==> event_of(raw) == Some(EventView::TextDelta { text: t })),
        str_member(raw, "message"@) is None && str_member(raw, "text"@) is None ==> event_of(raw) is None,
{
    lemma_kinds_distinct();
    reveal_with_fuel(first_string, 3);
    assert(seq!["message"@, "text"@].drop_first() =~= seq!["text"@]);
    assert(seq!["text"@].drop_first() =~= Seq::<Seq<char>>::empty());
}

/// A started item is an event only for a command execution with an `id`: a
/// tool start named `command_execution`, whose input is the item's `command`
/// (empty when it has none).
pub proof fn law_item_started(raw: Json)
    requires
        kind_of(raw) == Some("item.started"@),
    ensures
        (event_of(raw) is Some) == (json_get(raw, "item"@) matches Some(item)
            && str_member(item, "type"@) == Some("command_execution"@) && str_member(item, "id"@) is Some),
        json_get(raw, "item"@) matches Some(item) ==> (str_member(item, "id"@) matches Some(id)
            ==> (str_member(item, "type"@) == Some("command_execution"@) ==> event_of(raw) == Some(
            EventView::ToolStarted {
                id,
                name: "command_execution"@,
                command: match str_member(item, "command"@) {
                    Some(c) => c,
                    None => ""@,
                },
            },
        ))),
{
    lemma_kinds_distinct();
}

/// A completed item is an event only when it is an agent message with text
/// (its `text`, else its `message`) or a command execution with an `id`. A
/// completed command reports its `output`, else `aggregated_output`, else
/// `stdout`, else nothing, and is an error exactly when its `exit_code` is a
/// nonzero `i64`.
pub proof fn law_item_completed(raw: Json)
    requires
        kind_of(raw) == Some("item.completed"@),
    ensures
        json_get(raw, "item"@) is None ==> event_of(raw) is None,
        json_get(raw, "item"@) matches Some(item) ==> {
            let kind = str_member(item, "type"@);
            &&& kind != Some("agent_message"@) && kind != Some("command_execution"@) ==> event_of(raw) is None
            &&& kind == Some("agent_message"@) ==> {
                &&& (str_member(item, "text"@) matches Some(t) ==> event_of(raw) == Some(EventView::TextDelta { text: t }))
                &&& (str_member(item, "message"@) matches Some(t) ==> (str_member(item, "text"@) is None
                    ==> event_of(raw) == Some(EventView::TextDelta { text: t })))
                &&& str_member(item, "text"@) is None && str_member(item, "message"@) is None ==> event_of(raw) is None
            }
            &&& kind == Some("command_execution"@) ==> {
                &&& str_member(item, "id"@) is None ==> event_of(raw) is None
                &&& (str_member(item, "id"@) matches Some(id) ==> event_of(raw) == Some(
                    EventView::ToolCompleted {
                        id,
                        output: if str_member(item, "output"@) is Some {
                            str_member(item, "output"@)->0
                        } else if str_member(item, "aggregated_output"@) is Some {
                            str_member(item, "aggregated_output"@)->0
                        } else if str_member(item, "stdout"@) is Some {
                            str_member(item, "stdout"@)->0
                        } else {
                            ""@
                        },
                        is_error: (json_i64(json_get(item, "exit_code"@)) matches Some(code) && code != 0),
                    },
                ))
            }
        },
{
    lemma_kinds_distinct();
    reveal_with_fuel(first_string, 4);
    assert(seq!["text"@, "message"@].drop_first() =~= seq!["message"@]);
    assert(seq!["message"@].drop_first() =~= Seq::<Seq<char>>::empty());
    let outs = seq!["output"@, "aggregated_output"@, "stdout"@];
    assert(outs.drop_first() =~= seq!["aggregated_output"@, "stdout"@]);
    assert(outs.drop_first().drop_first() =~= seq!["stdout"@]);
    assert(outs.drop_first().drop_first().drop_first() =~= Seq::<Seq<char>>::empty());
}

/// A line whose `type` is not a string, or is none of the six kinds of event
/// lines, is no event.
pub proof fn law_unknown_kind_no_event(raw: Json)
    requires
        kind_of(raw) is None || (kind_of(raw) matches Some(k) && k != "thread.started"@ && k
            != "agent_message"@ && k != "item.started"@ && k != "item.completed"@ && k
            != "turn.completed"@ && k != "turn.failed"@),
    ensures
        event_of(raw) is None,
{
}

} // verus!
