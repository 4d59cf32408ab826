use vstd::prelude::*;
use crate::events::{AgentEvent, EventView, event_matches, describes, line_event, translate_line};
use crate::registry::TaskStatus;
use crate::text::{joined, joined3, trim, str_trim};

verus! {

/// What the runtime remembers while it follows one Codex process: the thread
/// it reported, the failure that ends the task, and whether that failure has
/// already been streamed as an event.
pub struct MonitorState {
    thread_id: Option<String>,
    terminal_failure: Option<String>,
    failure_emitted: bool,
}

pub struct MonitorView {
    pub thread_id: Option<Seq<char>>,
    pub terminal_failure: Option<Seq<char>>,
    pub failure_emitted: bool,
}

pub open spec fn opt_string_view(s: Option<String>) -> Option<Seq<char>> {
    match s {
        Some(s) => Some(s@),
        None => None,
    }
}

impl View for MonitorState {
    type V = MonitorView;

    closed spec fn view(&self) -> MonitorView {
        MonitorView {
            thread_id: opt_string_view(self.thread_id),
            terminal_failure: opt_string_view(self.terminal_failure),
            failure_emitted: self.failure_emitted,
        }
    }
}

/// A failure that was streamed is the failure that ends the task.
pub open spec fn monitor_wf(state: MonitorView) -> bool {
    state.failure_emitted ==> state.terminal_failure is Some
}

/// What following an event changes: a started thread is remembered, a failure
/// ends the task and counts as streamed.
pub open spec fn after_event(state: MonitorView, event: Option<EventView>) -> MonitorView {
    match event {
        Some(EventView::ThreadStarted { thread_id }) => MonitorView { thread_id: Some(thread_id), ..state },
        Some(EventView::Failed { message }) => MonitorView {
            terminal_failure: Some(message),
            failure_emitted: true,
            ..state
        },
        _ => state,
    }
}

/// How waiting for the Codex process ended: it exited (with its exit status
/// as text), or waiting for it failed.
pub enum ExitOutcome {
    Exited { success: bool, status: String },
    WaitFailed { message: String },
}

/// The message of a task whose process exited without a streamed failure.
pub open spec fn exit_message(status: Seq<char>, stderr: Seq<char>) -> Seq<char> {
    if str_trim(stderr).len() == 0 {
        "Codex exited with "@ + status
    } else {
        "Codex exited with "@ + status + ": "@ + str_trim(stderr)
    }
}

/// The last event of a task and the status it ends with, once its process is
/// gone: `Completed` only for a successful exit with no failure on the way.
pub open spec fn conclusion(state: MonitorView, exit: ExitOutcome, stderr: Seq<char>) -> (Option<EventView>, TaskStatus) {
    match exit {
        ExitOutcome::Exited { success, status } => if success && state.terminal_failure is None {
            (Some(EventView::Completed { thread_id: state.thread_id }), TaskStatus::Completed)
        } else {
            let message = match state.terminal_failure {
                Some(m) => m,
                None => exit_message(status@, stderr),
            };
            (
                if state.failure_emitted {
                    None
                } else {
                    Some(EventView::Failed { message })
                },
                TaskStatus::Failed,
            )
        },
        ExitOutcome::WaitFailed { message } => (Some(EventView::Failed { message: message@ }), TaskStatus::Failed),
    }
}

impl MonitorState {
    /// A failure that was streamed is the failure that ends the task.
    #[verifier::type_invariant]
    spec fn inv(self) -> bool {
        self.failure_emitted ==> self.terminal_failure is Some
    }

    pub fn new() -> (r: Self)
        ensures
            r@ == (MonitorView { thread_id: None, terminal_failure: None, failure_emitted: false }),
            monitor_wf(r@),
    {
        MonitorState { thread_id: None, terminal_failure: None, failure_emitted: false }
    }

    /// Follows one line of Codex's output: gives back the event to stream, if
    /// the line is one, and remembers what it says of the task.
    pub fn on_line(&mut self, line: &str) -> (r: Option<AgentEvent>)
        ensures
            event_matches(r, line_event(line@)),
            final(self)@ == after_event(old(self)@, line_event(line@)),
            monitor_wf(final(self)@),
    {
        proof { use_type_invariant(&*self); }
        let event = translate_line(line);
        match &event {
            Some(AgentEvent::ThreadStarted { thread_id }) => {
                self.thread_id = Some(thread_id.clone());
            },
            Some(AgentEvent::Failed { message }) => {
                self.terminal_failure = Some(message.clone());
                self.failure_emitted = true;
            },
            _ => {},
        }
        proof {
            let d = line_event(line@);
            if d is Some {
                let v = d->0;
                assert(describes(event->0, v));
            }
            use_type_invariant(&*self);
        }
        event
    }

    /// Records that reading Codex's output failed with `error`; that failure
    /// ends the task.
    pub fn on_read_error(&mut self, error: &str)
        ensures
            final(self)@ == (MonitorView {
                terminal_failure: Some("failed to read Codex output: "@ + error@),
                ..old(self)@
            }),
            monitor_wf(final(self)@),
    {
        proof { use_type_invariant(&*self); }
        self.terminal_failure = Some(joined("failed to read Codex output: ", error));
        proof { use_type_invariant(&*self); }
    }

    /// The last event to stream and the status the task ends with, once its
    /// process is gone; `stderr` is what the process wrote to its standard error.
    pub fn conclude(self, exit: ExitOutcome, stderr: &str) -> (r: (Option<AgentEvent>, TaskStatus))
        ensures
            event_matches(r.0, conclusion(self@, exit, stderr@).0),
            r.1 == conclusion(self@, exit, stderr@).1,
    {
        let ghost state = self@;
        let ghost exit_view = exit;
        match exit {
            ExitOutcome::Exited { success, status } => {
                if success && self.terminal_failure.is_none() {
                    (Some(AgentEvent::Completed { thread_id: self.thread_id }), TaskStatus::Completed)
                } else {
                    let message = match self.terminal_failure {
                        Some(m) => m,
                        None => {
                            let detail = trim(stderr);
                            if detail.is_empty() {
                                joined("Codex exited with ", status.as_str())
                            } else {
                                joined3("Codex exited with ", status.as_str(), ": ").concat(detail)
                            }
                        },
                    };
                    if self.failure_emitted {
                        (None, TaskStatus::Failed)
                    } else {
                        (Some(AgentEvent::Failed { message }), TaskStatus::Failed)
                    }
                }
            },
            ExitOutcome::WaitFailed { message } => (Some(AgentEvent::Failed { message }), TaskStatus::Failed),
        }
    }
}

/// The event streamed and the status a task ends with when the host stops it.
pub fn interruption() -> (r: (AgentEvent, TaskStatus))
    ensures
        describes(r.0, EventView::Interrupted),
        r.1 == TaskStatus::Interrupted,
{
    (AgentEvent::Interrupted, TaskStatus::Interrupted)
}

/// A task completes only when its process exited successfully and no failure
/// ended it; the completion names the thread the stream reported. Every other
/// end is a failure.
pub proof fn law_completed_only_on_clean_exit(state: MonitorView, exit: ExitOutcome, stderr: Seq<char>)
    ensures
        (conclusion(state, exit, stderr).1 == TaskStatus::Completed) == (exit matches ExitOutcome::Exited { success, .. } && success && state.terminal_failure is None),
        conclusion(state, exit, stderr).1 == TaskStatus::Completed || conclusion(state, exit, stderr).1 == TaskStatus::Failed,
        conclusion(state, exit, stderr).1 == TaskStatus::Completed ==> conclusion(state, exit, stderr).0 == Some(EventView::Completed { thread_id: state.thread_id }),
{
}

/// When the process exits, a failure is streamed once: a task whose failure
/// was already streamed ends with no further event, and any other task ends
/// with exactly one last event.
pub proof fn law_failure_streamed_once(state: MonitorView, exit: ExitOutcome, stderr: Seq<char>)
    requires
        monitor_wf(state),
        exit is Exited,
    ensures
        state.failure_emitted ==> conclusion(state, exit, stderr).0 is None && conclusion(state, exit, stderr).1 == TaskStatus::Failed,
        !state.failure_emitted ==> conclusion(state, exit, stderr).0 is Some,
{
}

/// A line that is no event (not JSON, or of a kind Codex adds that the
/// runtime does not know) streams nothing and leaves the task as it was.
pub proof fn law_unknown_lines_ignored(state: MonitorView, line: Seq<char>)
    requires
        line_event(line) is None,
    ensures
        after_event(state, line_event(line)) == state,
{
}

/// Following an event changes what ends the task only when the event is a
/// failure, and changes the thread only when the event starts one; every
/// other event (a failed tool among them) leaves the state as it was.
pub proof fn law_only_failures_end_task(state: MonitorView, event: Option<EventView>)
    ensures
        !(event matches Some(EventView::Failed { .. })) ==> after_event(state, event).terminal_failure
            == state.terminal_failure && after_event(state, event).failure_emitted == state.failure_emitted,
        event matches Some(EventView::Failed { message }) ==> after_event(state, event).terminal_failure
            == Some(message) && after_event(state, event).failure_emitted,
        !(event matches Some(EventView::ThreadStarted { .. })) ==> after_event(state, event).thread_id == state.thread_id,
        event matches Some(EventView::ThreadStarted { thread_id }) ==> after_event(state, event).thread_id == Some(thread_id),
{
}

/// The state after following `events` one after the other.
pub open spec fn after_events(state: MonitorView, events: Seq<Option<EventView>>) -> MonitorView
    decreases events.len(),
{
    if events.len() == 0 {
        state
    } else {
        after_event(after_events(state, events.drop_last()), events.last())
    }
}

/// A task whose stream holds no failure completes when its process exits
/// successfully, whatever else the stream held; had its stream held a
/// failure, it fails.
pub proof fn law_clean_stream_completes(events: Seq<Option<EventView>>, status: String, stderr: Seq<char>)
    ensures
        (forall|i: int| 0 <= i < events.len() ==> !(#[trigger] events[i] matches Some(EventView::Failed { .. })))
            ==> conclusion(
            after_events(MonitorView { thread_id: None, terminal_failure: None, failure_emitted: false }, events),
            ExitOutcome::Exited { success: true, status },
            stderr,
        ).1 == TaskStatus::Completed,
        (exists|i: int| 0 <= i < events.len() && #[trigger] events[i] matches Some(EventView::Failed { .. }))
            ==> conclusion(
            after_events(MonitorView { thread_id: None, terminal_failure: None, failure_emitted: false }, events),
            ExitOutcome::Exited { success: true, status },
            stderr,
        ).1 == TaskStatus::Failed,
{
    let start = MonitorView { thread_id: None, terminal_failure: None, failure_emitted: false };
    lemma_failure_recorded(start, events);
}

proof fn lemma_failure_recorded(state: MonitorView, events: Seq<Option<EventView>>)
    ensures
        (forall|i: int| 0 <= i < events.len() ==> !(#[trigger] events[i] matches Some(EventView::Failed { .. })))
            ==> after_events(state, events).terminal_failure == state.terminal_failure,
        (exists|i: int| 0 <= i < events.len() && #[trigger] events[i] matches Some(EventView::Failed { .. }))
            ==> after_events(state, events).terminal_failure is Some,
    decreases events.len(),
{
    if events.len() > 0 {
        let rest = events.drop_last();
        lemma_failure_recorded(state, rest);
        assert forall|i: int| 0 <= i < rest.len() implies #[trigger] rest[i] == events[i] by {}
        if exists|i: int| 0 <= i < events.len() && #[trigger] events[i] matches Some(EventView::Failed { .. }) {
            let i = choose|i: int| 0 <= i < events.len() && #[trigger] events[i] matches Some(EventView::Failed { .. });
            if i < rest.len() {
                assert(rest[i] matches Some(EventView::Failed { .. }));
                law_failure_stays(after_events(state, rest), events.last());
            }
        }
        if forall|i: int| 0 <= i < events.len() ==> !(#[trigger] events[i] matches Some(EventView::Failed { .. })) {
            assert(!(events[events.len() - 1] matches Some(EventView::Failed { .. })));
        }
    }
}

/// Once a failure ends the task, following further events keeps a failure
/// ending it.
pub proof fn law_failure_stays(state: MonitorView, event: Option<EventView>)
    requires
        state.terminal_failure is Some,
    ensures
        after_event(state, event).terminal_failure is Some,
{
}

/// A task that fails without a failure streamed for it ends with one failure
/// event: the failure that ended it, or, when none did, the exit status
/// followed by the trimmed standard error when any is left.
pub proof fn law_failure_message(state: MonitorView, exit: ExitOutcome, stderr: Seq<char>)
    requires
        !state.failure_emitted,
    ensures
        state.terminal_failure matches Some(m) ==> (exit is Exited ==> conclusion(state, exit, stderr).0
            == Some(EventView::Failed { message: m })),
        exit matches ExitOutcome::Exited { success, status } ==> (!success && state.terminal_failure is None
            ==> conclusion(state, exit, stderr).0 == Some(
            EventView::Failed {
                message: if str_trim(stderr).len() == 0 {
                    "Codex exited with "@ + status@
                } else {
                    "Codex exited with "@ + status@ + ": "@ + str_trim(stderr)
                },
            },
        )),
        exit matches ExitOutcome::WaitFailed { message } ==> conclusion(state, exit, stderr) == (
            Some(EventView::Failed { message: message@ }),
            TaskStatus::Failed,
        ),
{
}

/// At most this many bytes of a process's standard error are kept before
/// further lines are dropped.
pub open spec fn stderr_budget() -> nat {
    4096
}

/// The number of bytes a text takes in UTF-8.
pub open spec fn utf8_size(s: Seq<char>) -> nat {
    vstd::utf8::encode_utf8(s).len()
}

/// The standard error of a Codex process, kept line by line while it is
/// under its byte budget.
pub struct StderrCapture {
    captured: String,
}

impl View for StderrCapture {
    type V = Seq<char>;

    closed spec fn view(&self) -> Seq<char> {
        self.captured@
    }
}

/// What keeping `line` does to the text kept so far (its size read as `str::len`
/// reads it, as a `usize`).
pub open spec fn captured_after(kept: Seq<char>, line: Seq<char>) -> Seq<char> {
    if (utf8_size(kept) as usize) < stderr_budget() {
        kept + line + "\n"@
    } else {
        kept
    }
}

/// While less than the budget has been kept, a line is kept whole, ended by a
/// newline; once the budget is reached, lines are dropped. What was kept is
/// never changed.
pub proof fn law_capture_budget(kept: Seq<char>, line: Seq<char>)
    ensures
        utf8_size(kept) < stderr_budget() ==> captured_after(kept, line) == kept + line + "\n"@,
        stderr_budget() <= utf8_size(kept) <= usize::MAX ==> captured_after(kept, line) == kept,
        captured_after(kept, line).subrange(0, kept.len() as int) == kept,
{
    assert((kept + line + "\n"@).subrange(0, kept.len() as int) =~= kept);
    assert(kept.subrange(0, kept.len() as int) =~= kept);
}

impl StderrCapture {
    pub fn new() -> (r: Self)
        ensures
            r@ == Seq::<char>::empty(),
    {
        StderrCapture { captured: String::new() }
    }

    /// Keeps `line`, ended by a newline, while less than the budget has been kept.
    pub fn record(&mut self, line: &str)
        ensures
            final(self)@ == captured_after(old(self)@, line@),
    {
        if self.captured.as_str().len() < 4096 {
            self.captured.append(line);
            self.captured.append("\n");
        }
    }

    /// The text kept.
    pub fn text(self) -> (r: String)
        ensures
            r@ == self@,
    {
        self.captured
    }
}

} // verus!
