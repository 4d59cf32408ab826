use everything_codex::registry::{TaskRegistry, TaskStatus};

#[test]
fn started_task_runs_and_stops_once() {
    let mut tasks: TaskRegistry<u32> = TaskRegistry::new();
    tasks.insert_running("a".to_string(), 7);
    assert!(tasks.contains("a"));
    assert_eq!(tasks.status("a").unwrap(), TaskStatus::Running);
    assert_eq!(tasks.stop("a").unwrap(), 7);
    assert_eq!(tasks.status("a").unwrap(), TaskStatus::Stopping);
    let again = tasks.stop("a").unwrap_err();
    assert_eq!(again.code, "TASK_NOT_RUNNING");
    assert_eq!(again.rpc_code, -32000);
    assert_eq!(again.message, "task is not running: a");
}

#[test]
fn unknown_task_is_not_found() {
    let mut tasks: TaskRegistry<u32> = TaskRegistry::new();
    assert!(!tasks.contains("x"));
    let e = tasks.status("x").unwrap_err();
    assert_eq!(e.code, "TASK_NOT_FOUND");
    assert_eq!(e.message, "task not found: x");
    let e = tasks.stop("x").unwrap_err();
    assert_eq!(e.code, "TASK_NOT_FOUND");
    assert_eq!(e.message, "task not found: x");
}

#[test]
fn finished_task_keeps_its_status() {
    let mut tasks: TaskRegistry<u32> = TaskRegistry::new();
    tasks.insert_running("a".to_string(), 1);
    tasks.insert_running("b".to_string(), 2);
    tasks.finish("a", TaskStatus::Completed);
    assert_eq!(tasks.status("a").unwrap(), TaskStatus::Completed);
    assert_eq!(tasks.stop("a").unwrap_err().code, "TASK_NOT_RUNNING");
    assert_eq!(tasks.status("b").unwrap(), TaskStatus::Running);
    tasks.finish("missing", TaskStatus::Failed);
    assert!(!tasks.contains("missing"));
}

#[test]
fn inserting_an_existing_id_replaces_it() {
    let mut tasks: TaskRegistry<u32> = TaskRegistry::new();
    tasks.insert_running("a".to_string(), 1);
    tasks.finish("a", TaskStatus::Failed);
    tasks.insert_running("a".to_string(), 9);
    assert_eq!(tasks.status("a").unwrap(), TaskStatus::Running);
    assert_eq!(tasks.stop("a").unwrap(), 9);
}

#[test]
fn shutdown_stops_every_running_task() {
    let mut tasks: TaskRegistry<u32> = TaskRegistry::new();
    tasks.insert_running("a".to_string(), 1);
    tasks.insert_running("b".to_string(), 2);
    tasks.insert_running("c".to_string(), 3);
    tasks.finish("b", TaskStatus::Interrupted);
    let mut handles = tasks.shutdown();
    handles.sort();
    assert_eq!(handles, vec![1, 3]);
    assert_eq!(tasks.status("a").unwrap(), TaskStatus::Stopping);
    assert_eq!(tasks.status("b").unwrap(), TaskStatus::Interrupted);
    assert_eq!(tasks.status("c").unwrap(), TaskStatus::Stopping);
    assert_eq!(tasks.stop("a").unwrap_err().code, "TASK_NOT_RUNNING");
    assert!(tasks.shutdown().is_empty());
}
