use vstd::prelude::*;
use crate::errors::{ServiceError, ErrorView, domain_error};
use crate::text::{str_eq, joined};

verus! {

/// The state of a task, as `task/status` reports it.
#[derive(Debug, Clone, Copy, PartialEq, Eq)]
pub enum TaskStatus {
    Running,
    Stopping,
    Completed,
    Failed,
    Interrupted,
}

/// What the registry knows of one task: its status and, while it can still be
/// stopped, the handle that stops it.
pub struct TaskState<H> {
    pub status: TaskStatus,
    pub stop: Option<H>,
}

struct TaskSlot<H> {
    id: String,
    status: TaskStatus,
    stop: Option<H>,
}

/// The tasks of a runtime, by id. `H` is the handle that asks a running task
/// to stop.
pub struct TaskRegistry<H> {
    slots: Vec<TaskSlot<H>>,
}

pub open spec fn not_found_error(id: Seq<char>) -> ErrorView {
    domain_error("TASK_NOT_FOUND"@, "task not found: "@ + id)
}

pub open spec fn not_running_error(id: Seq<char>) -> ErrorView {
    domain_error("TASK_NOT_RUNNING"@, "task is not running: "@ + id)
}

pub open spec fn already_exists_error(id: Seq<char>) -> ErrorView {
    domain_error("TASK_ALREADY_EXISTS"@, "task already exists: "@ + id)
}

/// The tasks after a task `id` has been started with stop handle `stop`.
pub open spec fn started<H>(tasks: Map<Seq<char>, TaskState<H>>, id: Seq<char>, stop: H) -> Map<Seq<char>, TaskState<H>> {
    tasks.insert(id, TaskState { status: TaskStatus::Running, stop: Some(stop) })
}

/// The tasks after task `id` has ended with `status`; unknown ids change nothing.
pub open spec fn finished<H>(tasks: Map<Seq<char>, TaskState<H>>, id: Seq<char>, status: TaskStatus) -> Map<Seq<char>, TaskState<H>> {
    if tasks.contains_key(id) {
        tasks.insert(id, TaskState { status, stop: None })
    } else {
        tasks
    }
}

/// The tasks after a stop request: every task that could still be stopped is
/// `Stopping` and has given up its handle.
pub open spec fn stopping_all<H>(tasks: Map<Seq<char>, TaskState<H>>) -> Map<Seq<char>, TaskState<H>> {
    Map::new(
        |k: Seq<char>| tasks.contains_key(k),
        |k: Seq<char>|
            if tasks[k].stop is Some {
                TaskState { status: TaskStatus::Stopping, stop: None }
            } else {
                tasks[k]
            },
    )
}

/// What `task/status` answers for task `id`.
pub open spec fn status_outcome<H>(tasks: Map<Seq<char>, TaskState<H>>, id: Seq<char>) -> Result<TaskStatus, ErrorView> {
    if tasks.contains_key(id) {
        Ok(tasks[id].status)
    } else {
        Err(not_found_error(id))
    }
}

/// What `task/stop` does for task `id`: the stop handle to use and the tasks
/// afterwards, or the error answered (the tasks then stay as they were).
pub open spec fn stop_outcome<H>(tasks: Map<Seq<char>, TaskState<H>>, id: Seq<char>) -> Result<(H, Map<Seq<char>, TaskState<H>>), ErrorView> {
    if !tasks.contains_key(id) {
        Err(not_found_error(id))
    } else {
        match tasks[id].stop {
            None => Err(not_running_error(id)),
            Some(handle) => Ok(
                (handle, tasks.insert(id, TaskState { status: TaskStatus::Stopping, stop: None })),
            ),
        }
    }
}

/// `handles` are the stop handles of the tasks named by `keys`, one per task
/// that could still be stopped in `tasks`.
pub open spec fn released<H>(tasks: Map<Seq<char>, TaskState<H>>, keys: Seq<Seq<char>>, handles: Seq<H>) -> bool {
    &&& keys.no_duplicates()
    &&& keys.len() == handles.len()
    &&& forall|t: int|
        0 <= t < keys.len() ==> tasks.contains_key(#[trigger] keys[t]) && tasks[keys[t]].stop
            == Some(handles[t])
    &&& forall|k: Seq<char>| tasks.contains_key(k) && tasks[k].stop is Some ==> keys.contains(k)
}

spec fn ids_unique<H>(slots: Seq<TaskSlot<H>>) -> bool {
    forall|i: int, j: int|
        0 <= i < j < slots.len() ==> #[trigger] slots[i].id@ != #[trigger] slots[j].id@
}

spec fn holds<H>(slots: Seq<TaskSlot<H>>, k: Seq<char>) -> bool {
    exists|i: int| 0 <= i < slots.len() && #[trigger] slots[i].id@ == k
}

spec fn slot_of<H>(slots: Seq<TaskSlot<H>>, k: Seq<char>) -> int {
    choose|i: int| 0 <= i < slots.len() && #[trigger] slots[i].id@ == k
}

spec fn state_of<H>(slot: TaskSlot<H>) -> TaskState<H> {
    TaskState { status: slot.status, stop: slot.stop }
}

/// The tasks the slots hold, by id.
spec fn tasks_of<H>(slots: Seq<TaskSlot<H>>) -> Map<Seq<char>, TaskState<H>> {
    Map::new(|k: Seq<char>| holds(slots, k), |k: Seq<char>| state_of(slots[slot_of(slots, k)]))
}

proof fn lemma_slot<H>(slots: Seq<TaskSlot<H>>, i: int)
    requires
        ids_unique(slots),
        0 <= i < slots.len(),
    ensures
        tasks_of(slots).contains_key(slots[i].id@),
        tasks_of(slots)[slots[i].id@] == state_of(slots[i]),
{
    let k = slots[i].id@;
    assert(holds(slots, k));
    let j = slot_of(slots, k);
    assert(slots[j].id@ == k);
    if i < j {
        assert(slots[i].id@ != slots[j].id@);
    } else if j < i {
        assert(slots[j].id@ != slots[i].id@);
    }
}

proof fn lemma_tasks_eq<H>(slots: Seq<TaskSlot<H>>, m: Map<Seq<char>, TaskState<H>>)
    requires
        ids_unique(slots),
        forall|i: int|
            0 <= i < slots.len() ==> m.contains_key(#[trigger] slots[i].id@) && m[slots[i].id@]
                == state_of(slots[i]),
        forall|k: Seq<char>| m.contains_key(k) ==> holds(slots, k),
    ensures
        tasks_of(slots) == m,
{
    assert forall|k: Seq<char>| #[trigger] tasks_of(slots).contains_key(k) == m.contains_key(k) by {
        if holds(slots, k) {
            let i = slot_of(slots, k);
            assert(m.contains_key(slots[i].id@));
        }
    }
    assert forall|k: Seq<char>| #[trigger] tasks_of(slots).contains_key(k) implies tasks_of(slots)[k]
        == m[k] by {
        lemma_slot(slots, slot_of(slots, k));
    }
    assert(tasks_of(slots) =~= m);
}

/// Changing what one slot says of its task, keeping its id, changes that task only.
proof fn lemma_update_slot<H>(before: Seq<TaskSlot<H>>, after: Seq<TaskSlot<H>>, i: int)
    requires
        ids_unique(before),
        0 <= i < before.len(),
        after.len() == before.len(),
        after[i].id == before[i].id,
        forall|j: int| 0 <= j < before.len() && j != i ==> #[trigger] after[j] == before[j],
    ensures
        ids_unique(after),
        tasks_of(after) == tasks_of(before).insert(before[i].id@, state_of(after[i])),
{
    let m = tasks_of(before).insert(before[i].id@, state_of(after[i]));
    assert forall|a: int, b: int| 0 <= a < b < after.len() implies #[trigger] after[a].id@
        != #[trigger] after[b].id@ by {
        assert(before[a].id@ != before[b].id@);
    }
    assert forall|j: int| 0 <= j < after.len() implies m.contains_key(#[trigger] after[j].id@)
        && m[after[j].id@] == state_of(after[j]) by {
        if j != i {
            lemma_slot(before, j);
        }
    }
    assert forall|k: Seq<char>| m.contains_key(k) implies holds(after, k) by {
        if k == before[i].id@ {
            assert(after[i].id@ == k);
        } else {
            let j = slot_of(before, k);
            assert(after[j].id@ == k);
        }
    }
    lemma_tasks_eq(after, m);
}

/// Adding a slot for a new id adds that task only.
proof fn lemma_push_slot<H>(before: Seq<TaskSlot<H>>, slot: TaskSlot<H>)
    requires
        ids_unique(before),
        !tasks_of(before).contains_key(slot.id@),
    ensures
        ids_unique(before.push(slot)),
        tasks_of(before.push(slot)) == tasks_of(before).insert(slot.id@, state_of(slot)),
{
    let after = before.push(slot);
    let n = before.len() as int;
    let m = tasks_of(before).insert(slot.id@, state_of(slot));
    assert forall|a: int, b: int| 0 <= a < b < after.len() implies #[trigger] after[a].id@
        != #[trigger] after[b].id@ by {
        if b == n {
            lemma_slot(before, a);
        } else {
            assert(before[a].id@ != before[b].id@);
        }
    }
    assert forall|j: int| 0 <= j < after.len() implies m.contains_key(#[trigger] after[j].id@)
        && m[after[j].id@] == state_of(after[j]) by {
        if j < n {
            lemma_slot(before, j);
        }
    }
    assert forall|k: Seq<char>| m.contains_key(k) implies holds(after, k) by {
        if k == slot.id@ {
            assert(after[n].id@ == k);
        } else {
            let j = slot_of(before, k);
            assert(after[j].id@ == k);
        }
    }
    lemma_tasks_eq(after, m);
}

fn find_slot<H>(slots: &Vec<TaskSlot<H>>, id: &str) -> (r: Option<usize>)
    ensures
        match r {
            Some(i) => i < slots@.len() && slots@[i as int].id@ == id@,
            None => !tasks_of(slots@).contains_key(id@),
        },
{
    let mut i: usize = 0;
    while i < slots.len()
        invariant
            i <= slots@.len(),
            forall|j: int| 0 <= j < i ==> #[trigger] slots@[j].id@ != id@,
        decreases slots@.len() - i,
    {
        if str_eq(slots[i].id.as_str(), id) {
            return Some(i);
        }
        i = i + 1;
    }
    None
}

impl<H> TaskRegistry<H> {
    /// Each id names one task.
    #[verifier::type_invariant]
    spec fn wf(self) -> bool {
        ids_unique(self.slots@)
    }

    /// The tasks by id.
    pub closed spec fn tasks(&self) -> Map<Seq<char>, TaskState<H>> {
        tasks_of(self.slots@)
    }

    pub fn new() -> (r: Self)
        ensures
            r.tasks() == Map::<Seq<char>, TaskState<H>>::empty(),
    {
        let r = TaskRegistry { slots: Vec::new() };
        assert(r.tasks() =~= Map::<Seq<char>, TaskState<H>>::empty());
        r
    }

    /// Moves the slots out, leaving none.
    fn take_slots(&mut self) -> (slots: Vec<TaskSlot<H>>)
        ensures
            slots@ == old(self).slots@,
            final(self).slots@ == Seq::<TaskSlot<H>>::empty(),
    {
        let mut slots: Vec<TaskSlot<H>> = Vec::new();
        std::mem::swap(&mut self.slots, &mut slots);
        slots
    }

    /// Whether a task `id` is known.
    pub fn contains(&self, id: &str) -> (r: bool)
        ensures
            r == self.tasks().contains_key(id@),
    {
        proof { use_type_invariant(self); }
        match find_slot(&self.slots, id) {
            Some(i) => {
                proof { lemma_slot(self.slots@, i as int); }
                true
            },
            None => false,
        }
    }

    /// Records task `id` as running, stoppable through `stop`.
    pub fn insert_running(&mut self, id: String, stop: H)
        ensures
            final(self).tasks() == started(old(self).tasks(), id@, stop),
    {
        proof { use_type_invariant(&*self); }
        let mut slots = self.take_slots();
        let ghost before = slots@;
        match find_slot(&slots, id.as_str()) {
            Some(i) => {
                slots[i].status = TaskStatus::Running;
                slots[i].stop = Some(stop);
                proof { lemma_update_slot(before, slots@, i as int); }
            },
            None => {
                let ghost slot = TaskSlot { id, status: TaskStatus::Running, stop: Some(stop) };
                slots.push(TaskSlot { id, status: TaskStatus::Running, stop: Some(stop) });
                proof { lemma_push_slot(before, slot); }
            },
        }
        self.slots = slots;
    }

    /// Records that task `id` has ended with `status`; it can no longer be stopped.
    pub fn finish(&mut self, id: &str, status: TaskStatus)
        ensures
            final(self).tasks() == finished(old(self).tasks(), id@, status),
    {
        proof { use_type_invariant(&*self); }
        let mut slots = self.take_slots();
        let ghost before = slots@;
        match find_slot(&slots, id) {
            Some(i) => {
                slots[i].status = status;
                slots[i].stop = None;
                proof {
                    lemma_slot(before, i as int);
                    lemma_update_slot(before, slots@, i as int);
                }
            },
            None => {},
        }
        self.slots = slots;
    }

    /// The status of task `id`, or `TASK_NOT_FOUND`.
    pub fn status(&self, id: &str) -> (r: Result<TaskStatus, ServiceError>)
        ensures
            match r {
                Ok(status) => status_outcome(self.tasks(), id@) == Ok::<TaskStatus, ErrorView>(status),
                Err(e) => status_outcome(self.tasks(), id@) == Err::<TaskStatus, ErrorView>(e@),
            },
    {
        proof { use_type_invariant(self); }
        match find_slot(&self.slots, id) {
            Some(i) => {
                proof { lemma_slot(self.slots@, i as int); }
                Ok(self.slots[i].status)
            },
            None => Err(ServiceError::domain("TASK_NOT_FOUND", joined("task not found: ", id))),
        }
    }

    /// Asks task `id` to stop: marks it `Stopping` and hands back its stop
    /// handle. `TASK_NOT_FOUND` for an unknown task, `TASK_NOT_RUNNING` for one
    /// that can no longer be stopped; both leave the tasks unchanged.
    pub fn stop(&mut self, id: &str) -> (r: Result<H, ServiceError>)
        ensures
            match r {
                Ok(handle) => stop_outcome(old(self).tasks(), id@) == Ok::<_, ErrorView>((handle, final(self).tasks())),
                Err(e) => {
                    &&& stop_outcome(old(self).tasks(), id@) == Err::<(H, Map<Seq<char>, TaskState<H>>), ErrorView>(e@)
                    &&& final(self).tasks() == old(self).tasks()
                },
            },
    {
        proof { use_type_invariant(&*self); }
        let mut slots = self.take_slots();
        let ghost before = slots@;
        let r = match find_slot(&slots, id) {
            Some(i) => {
                proof { lemma_slot(before, i as int); }
                match slots[i].stop.take() {
                    Some(handle) => {
                        slots[i].status = TaskStatus::Stopping;
                        proof { lemma_update_slot(before, slots@, i as int); }
                        Ok(handle)
                    },
                    None => {
                        assert(slots@ =~= before);
                        Err(ServiceError::domain("TASK_NOT_RUNNING", joined("task is not running: ", id)))
                    },
                }
            },
            None => Err(ServiceError::domain("TASK_NOT_FOUND", joined("task not found: ", id))),
        };
        self.slots = slots;
        r
    }

    /// Asks every task that can still be stopped to stop: each becomes
    /// `Stopping` and its stop handle is handed back.
    pub fn shutdown(&mut self) -> (handles: Vec<H>)
        ensures
            final(self).tasks() == stopping_all(old(self).tasks()),
            exists|keys: Seq<Seq<char>>| released(old(self).tasks(), keys, handles@),
    {
        proof { use_type_invariant(&*self); }
        let mut slots = self.take_slots();
        let ghost before = slots@;
        let mut handles: Vec<H> = Vec::new();
        let ghost mut keys: Seq<Seq<char>> = Seq::empty();
        let ghost mut idx: Seq<int> = Seq::empty();
        let mut i: usize = 0;
        while i < slots.len()
            invariant
                ids_unique(before),
                slots@.len() == before.len(),
                i <= slots@.len(),
                forall|j: int| 0 <= j < slots@.len() ==> #[trigger] slots@[j].id == before[j].id,
                forall|j: int|
                    0 <= j < i ==> #[trigger] state_of(slots@[j]) == (if before[j].stop is Some {
                        TaskState { status: TaskStatus::Stopping, stop: None }
                    } else {
                        state_of(before[j])
                    }),
                forall|j: int| i <= j < slots@.len() ==> #[trigger] slots@[j] == before[j],
                keys.no_duplicates(),
                keys.len() == handles@.len(),
                idx.len() == keys.len(),
                forall|t: int|
                    0 <= t < keys.len() ==> 0 <= #[trigger] idx[t] < i && before[idx[t]].id@ == keys[t]
                        && before[idx[t]].stop == Some(handles@[t]),
                forall|j: int|
                    0 <= j < i && #[trigger] before[j].stop is Some ==> keys.contains(before[j].id@),
            decreases slots@.len() - i,
        {
            let ghost prev = slots@;
            let ghost prev_keys = keys;
            let ghost prev_idx = idx;
            let ghost prev_handles = handles@;
            match slots[i].stop.take() {
                Some(handle) => {
                    slots[i].status = TaskStatus::Stopping;
                    proof {
                        let k = before[i as int].id@;
                        assert forall|t: int| 0 <= t < keys.len() implies keys[t] != k by {
                            assert(before[idx[t]].id@ != before[i as int].id@);
                        }
                        assert(!keys.contains(k));
                        keys = keys.push(k);
                        idx = idx.push(i as int);
                    }
                    handles.push(handle);
                    proof {
                        assert forall|t: int|
                            0 <= t < keys.len() implies 0 <= #[trigger] idx[t] < i + 1 && before[idx[t]].id@ == keys[t]
                                && before[idx[t]].stop == Some(handles@[t]) by {
                            if t < keys.len() - 1 {
                                assert(handles@[t] == prev_handles[t]);
                                assert(keys[t] == prev_keys[t]);
                                assert(idx[t] == prev_idx[t]);
                            }
                        }
                        assert forall|j: int|
                            0 <= j < i + 1 && #[trigger] before[j].stop is Some implies keys.contains(before[j].id@) by {
                            if j == i {
                                assert(keys[keys.len() - 1] == before[j].id@);
                            } else {
                                assert(prev_keys.contains(before[j].id@));
                                let t = choose|t: int| 0 <= t < prev_keys.len() && prev_keys[t] == before[j].id@;
                                assert(keys[t] == before[j].id@);
                            }
                        }
                    }
                },
                None => {
                    assert(slots@ =~= prev);
                },
            }
            assert forall|j: int| 0 <= j < slots@.len() && j != i implies #[trigger] slots@[j] == prev[j] by {}
            i = i + 1;
        }
        proof {
            let m = stopping_all(tasks_of(before));
            assert forall|a: int, b: int|
                0 <= a < b < slots@.len() implies #[trigger] slots@[a].id@ != #[trigger] slots@[b].id@ by {
                assert(before[a].id@ != before[b].id@);
            }
            assert forall|j: int|
                0 <= j < slots@.len() implies m.contains_key(#[trigger] slots@[j].id@) && m[slots@[j].id@]
                == state_of(slots@[j]) by {
                lemma_slot(before, j);
            }
            assert forall|k: Seq<char>| m.contains_key(k) implies holds(slots@, k) by {
                let j = slot_of(before, k);
                assert(slots@[j].id@ == k);
            }
            lemma_tasks_eq(slots@, m);
            assert forall|t: int|
                0 <= t < keys.len() implies tasks_of(before).contains_key(#[trigger] keys[t])
                && tasks_of(before)[keys[t]].stop == Some(handles@[t]) by {
                lemma_slot(before, idx[t]);
            }
            assert forall|k: Seq<char>|
                tasks_of(before).contains_key(k) && tasks_of(before)[k].stop is Some implies keys.contains(k) by {
                let j = slot_of(before, k);
                lemma_slot(before, j);
                assert(before[j].stop is Some);
            }
            assert(released(tasks_of(before), keys, handles@));
        }
        self.slots = slots;
        assert(old(self).tasks() == tasks_of(before));
        assert(released(old(self).tasks(), keys, handles@));
        handles
    }
}

/// A task that has just been started is reported `Running`, and stopping it
/// hands back exactly the handle it was started with.
pub proof fn law_started_task_runs<H>(tasks: Map<Seq<char>, TaskState<H>>, id: Seq<char>, stop: H)
    ensures
        status_outcome(started(tasks, id, stop), id) == Ok::<TaskStatus, ErrorView>(TaskStatus::Running),
        stop_outcome(started(tasks, id, stop), id) matches Ok((handle, _)) && handle == stop,
{
}

/// Starting, ending or stopping one task changes no other task: every other
/// id is known afterwards exactly when it was before, with the same state,
/// so `task/status` and `task/stop` answer the same for it.
pub proof fn law_other_tasks_unchanged<H>(tasks: Map<Seq<char>, TaskState<H>>, id: Seq<char>, other: Seq<char>, stop: H, status: TaskStatus)
    requires
        other != id,
    ensures
        started(tasks, id, stop).contains_key(other) == tasks.contains_key(other),
        tasks.contains_key(other) ==> started(tasks, id, stop)[other] == tasks[other],
        status_outcome(started(tasks, id, stop), other) == status_outcome(tasks, other),
        stop_outcome(started(tasks, id, stop), other) is Err <==> stop_outcome(tasks, other) is Err,
        finished(tasks, id, status).contains_key(other) == tasks.contains_key(other),
        tasks.contains_key(other) ==> finished(tasks, id, status)[other] == tasks[other],
        status_outcome(finished(tasks, id, status), other) == status_outcome(tasks, other),
        stop_outcome(tasks, id) matches Ok((_, after)) ==> status_outcome(after, other) == status_outcome(tasks, other),
{
}

/// Starting a task makes it known and running whatever was known before; a
/// task that ends keeps the status it ended with.
pub proof fn law_start_and_finish<H>(tasks: Map<Seq<char>, TaskState<H>>, id: Seq<char>, stop: H, status: TaskStatus)
    ensures
        started(tasks, id, stop).dom() == tasks.dom().insert(id),
        tasks.contains_key(id) ==> finished(tasks, id, status).dom() == tasks.dom(),
        !tasks.contains_key(id) ==> finished(tasks, id, status) == tasks,
        finished(started(tasks, id, stop), id, status)[id] == (TaskState::<H> { status, stop: None }),
{
    assert(started(tasks, id, stop).dom() =~= tasks.dom().insert(id));
    if tasks.contains_key(id) {
        assert(finished(tasks, id, status).dom() =~= tasks.dom());
    }
}

/// Shutting down leaves tasks that could no longer be stopped as they were,
/// and marks every other one `Stopping`.
pub proof fn law_shutdown_touches_only_running<H>(tasks: Map<Seq<char>, TaskState<H>>, id: Seq<char>)
    requires
        tasks.contains_key(id),
    ensures
        tasks[id].stop is None ==> stopping_all(tasks)[id] == tasks[id],
        tasks[id].stop is Some ==> stopping_all(tasks)[id] == (TaskState::<H> { status: TaskStatus::Stopping, stop: None }),
{
}

/// A stop request is answered once: afterwards the task is `Stopping`, a
/// second request for it is answered `TASK_NOT_RUNNING`, and no other task
/// has changed.
pub proof fn law_stop_once<H>(tasks: Map<Seq<char>, TaskState<H>>, id: Seq<char>)
    requires
        stop_outcome(tasks, id) is Ok,
    ensures
        ({
            let after = stop_outcome(tasks, id)->Ok_0.1;
            &&& status_outcome(after, id) == Ok::<TaskStatus, ErrorView>(TaskStatus::Stopping)
            &&& stop_outcome(after, id) == Err::<(H, Map<Seq<char>, TaskState<H>>), ErrorView>(not_running_error(id))
            &&& forall|other: Seq<char>| other != id ==> #[trigger] after.contains_key(other) == tasks.contains_key(other)
                && (tasks.contains_key(other) ==> after[other] == tasks[other])
        }),
{
}

/// A task that has ended reports the status it ended with and can no longer
/// be stopped.
pub proof fn law_finished_task_cannot_stop<H>(tasks: Map<Seq<char>, TaskState<H>>, id: Seq<char>, status: TaskStatus)
    requires
        tasks.contains_key(id),
    ensures
        status_outcome(finished(tasks, id, status), id) == Ok::<TaskStatus, ErrorView>(status),
        stop_outcome(finished(tasks, id, status), id) == Err::<(H, Map<Seq<char>, TaskState<H>>), ErrorView>(not_running_error(id)),
{
}

/// A task the registry never saw is answered `TASK_NOT_FOUND` by both
/// `task/status` and `task/stop`.
pub proof fn law_unknown_task_not_found<H>(tasks: Map<Seq<char>, TaskState<H>>, id: Seq<char>)
    requires
        !tasks.contains_key(id),
    ensures
        status_outcome(tasks, id) == Err::<TaskStatus, ErrorView>(not_found_error(id)),
        stop_outcome(tasks, id) == Err::<(H, Map<Seq<char>, TaskState<H>>), ErrorView>(not_found_error(id)),
{
}

/// After a shutdown no task can be stopped any more, every task is still
/// known, and a second shutdown changes nothing.
pub proof fn law_shutdown_stops_everything<H>(tasks: Map<Seq<char>, TaskState<H>>)
    ensures
        stopping_all(tasks).dom() == tasks.dom(),
        forall|id: Seq<char>|
            tasks.contains_key(id) ==> #[trigger] stop_outcome(stopping_all(tasks), id) == Err::<
                (H, Map<Seq<char>, TaskState<H>>),
                ErrorView,
            >(not_running_error(id)),
        stopping_all(stopping_all(tasks)) == stopping_all(tasks),
{
    assert(stopping_all(tasks).dom() =~= tasks.dom());
    assert(stopping_all(stopping_all(tasks)) =~= stopping_all(tasks));
}

} // verus!
