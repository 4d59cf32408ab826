use everything_codex::adapter::Sandbox;
use everything_codex::errors::ServiceError;
use everything_codex::registry::TaskRegistry;
use everything_codex::service::{
    check_jsonrpc_version, check_protocol_version, check_workspace, codex_version, ends_session,
    plan_start, resolve_binary, route, Request, ResolvedWorkspace, StartRequest, VersionOutput,
    WorkspaceProbe,
};

fn probe(path: &str) -> WorkspaceProbe {
    WorkspaceProbe {
        absolute: true,
        is_dir: true,
        resolved: Some(ResolvedWorkspace { path: path.to_string(), has_parent: true, is_home: false }),
    }
}

fn request(task_id: Option<&str>, prompt: &str) -> StartRequest {
    StartRequest {
        task_id: task_id.map(str::to_owned),
        prompt: prompt.to_string(),
        thread_id: Some("t".to_string()),
        model: None,
        sandbox: Sandbox::ReadOnly,
        images: vec!["/i.png".to_string()],
    }
}

#[test]
fn routes_methods_after_initialize() {
    assert_eq!(route("runtime/initialize", false).unwrap(), Request::Initialize);
    assert_eq!(route("runtime/initialize", true).unwrap(), Request::Initialize);
    let e = route("task/start", false).unwrap_err();
    assert_eq!(e.code, "RUNTIME_NOT_INITIALIZED");
    assert_eq!(e.rpc_code, -32000);
    assert_eq!(e.message, "runtime/initialize must be called first");
    assert_eq!(route("codex/check", true).unwrap(), Request::CheckCodex);
    assert_eq!(route("task/start", true).unwrap(), Request::StartTask);
    assert_eq!(route("task/status", true).unwrap(), Request::TaskStatus);
    assert_eq!(route("task/stop", true).unwrap(), Request::StopTask);
    assert_eq!(route("runtime/shutdown", true).unwrap(), Request::Shutdown);
    let e = route("task/list", true).unwrap_err();
    assert_eq!(e.rpc_code, -32601);
    assert_eq!(e.code, "METHOD_NOT_FOUND");
    assert_eq!(e.message, "unknown method: task/list");
    assert_eq!(route("nope", false).unwrap_err().code, "RUNTIME_NOT_INITIALIZED");
}

#[test]
fn session_ends_on_shutdown_only() {
    assert!(ends_session("runtime/shutdown"));
    assert!(!ends_session("task/stop"));
}

#[test]
fn checks_protocol_and_jsonrpc_versions() {
    assert!(check_protocol_version("1.0").is_ok());
    let e = check_protocol_version("2.0").unwrap_err();
    assert_eq!(e.code, "PROTOCOL_VERSION_UNSUPPORTED");
    assert_eq!(e.message, "protocol 2.0 is unsupported");
    assert!(check_jsonrpc_version("2.0").is_ok());
    let e = check_jsonrpc_version("1.0").unwrap_err();
    assert_eq!(e.rpc_code, -32602);
    assert_eq!(e.code, "INVALID_PARAMS");
    assert_eq!(e.message, "jsonrpc must be 2.0");
}

#[test]
fn error_constructors() {
    let e = ServiceError::invalid("bad".to_string());
    assert_eq!((e.rpc_code, e.code, e.message.as_str()), (-32602, "INVALID_PARAMS", "bad"));
    let e = ServiceError::domain("TASK_NOT_FOUND", "missing".to_string());
    assert_eq!((e.rpc_code, e.code, e.message.as_str()), (-32000, "TASK_NOT_FOUND", "missing"));
    let e = ServiceError::parse_error("eof".to_string());
    assert_eq!((e.rpc_code, e.code, e.message.as_str()), (-32700, "PARSE_ERROR", "eof"));
}

#[test]
fn resolves_the_codex_binary() {
    assert_eq!(resolve_binary(None), "codex");
    assert_eq!(resolve_binary(Some("/opt/codex".to_string())), "/opt/codex");
}

#[test]
fn rejects_relative_workspace() {
    let relative = WorkspaceProbe { absolute: false, is_dir: false, resolved: None };
    assert_eq!(check_workspace(relative).unwrap_err().code, "WORKSPACE_INVALID");
}

#[test]
fn workspace_checks() {
    assert_eq!(check_workspace(probe("/work/p")).unwrap(), "/work/p");
    let e = check_workspace(WorkspaceProbe { absolute: true, is_dir: false, resolved: None }).unwrap_err();
    assert_eq!(e.message, "workspace must be an existing absolute directory");
    let e = check_workspace(WorkspaceProbe { absolute: true, is_dir: true, resolved: None }).unwrap_err();
    assert_eq!((e.code, e.message.as_str()), ("WORKSPACE_INVALID", "workspace could not be resolved"));
    let root = WorkspaceProbe {
        absolute: true,
        is_dir: true,
        resolved: Some(ResolvedWorkspace { path: "/".to_string(), has_parent: false, is_home: false }),
    };
    let e = check_workspace(root).unwrap_err();
    assert_eq!((e.code, e.message.as_str()), ("WORKSPACE_TOO_BROAD", "workspace may not be a filesystem or home root"));
    let home = WorkspaceProbe {
        absolute: true,
        is_dir: true,
        resolved: Some(ResolvedWorkspace { path: "/home/u".to_string(), has_parent: true, is_home: true }),
    };
    assert_eq!(check_workspace(home).unwrap_err().code, "WORKSPACE_TOO_BROAD");
}

#[test]
fn plans_a_task_start() {
    let tasks: TaskRegistry<u8> = TaskRegistry::new();
    let (id, config) = plan_start(&tasks, "codex".to_string(), request(Some("job"), "do it"), probe("/w")).unwrap();
    assert_eq!(id, "job");
    assert_eq!(config.binary, "codex");
    assert_eq!(config.workspace, "/w");
    assert_eq!(config.prompt, "do it");
    assert_eq!(config.thread_id.as_deref(), Some("t"));
    assert_eq!(config.sandbox, Sandbox::ReadOnly);
    assert_eq!(config.images, vec!["/i.png".to_string()]);
}

#[test]
fn plans_a_fresh_task_id() {
    let tasks: TaskRegistry<u8> = TaskRegistry::new();
    let (id, _) = plan_start(&tasks, "codex".to_string(), request(None, "go"), probe("/w")).unwrap();
    assert_eq!(id.len(), 36);
    assert_eq!(id.chars().nth(8), Some('-'));
    assert_eq!(id.chars().nth(14), Some('4'));
    let (other, _) = plan_start(&tasks, "codex".to_string(), request(None, "go"), probe("/w")).unwrap();
    assert_ne!(id, other);
    for (i, c) in id.chars().enumerate() {
        if [8, 13, 18, 23].contains(&i) {
            assert_eq!(c, '-');
        } else {
            assert!(c.is_ascii_digit() || ('a'..='f').contains(&c));
        }
    }
    assert!("89ab".contains(id.chars().nth(19).unwrap()));
}

#[test]
fn blank_prompts_are_unicode_whitespace_only() {
    let tasks: TaskRegistry<u8> = TaskRegistry::new();
    let e = plan_start(&tasks, "codex".to_string(), request(Some("j"), "\u{3000}\u{a0}\u{2028} "), probe("/w")).unwrap_err();
    assert_eq!(e.code, "INVALID_PARAMS");
    assert!(plan_start(&tasks, "codex".to_string(), request(Some("j"), "\u{200b}"), probe("/w")).is_ok());
}

#[test]
fn refuses_bad_starts() {
    let mut tasks: TaskRegistry<u8> = TaskRegistry::new();
    tasks.insert_running("job".to_string(), 1);
    let e = plan_start(&tasks, "codex".to_string(), request(Some("job"), "  \n\t"), probe("/w")).unwrap_err();
    assert_eq!((e.code, e.message.as_str()), ("INVALID_PARAMS", "prompt must not be empty"));
    let bad = WorkspaceProbe { absolute: false, is_dir: false, resolved: None };
    let e = plan_start(&tasks, "codex".to_string(), request(Some("job"), "x"), bad).unwrap_err();
    assert_eq!(e.code, "WORKSPACE_INVALID");
    let e = plan_start(&tasks, "codex".to_string(), request(Some("job"), "x"), probe("/w")).unwrap_err();
    assert_eq!((e.code, e.message.as_str()), ("TASK_ALREADY_EXISTS", "task already exists: job"));
}

#[test]
fn judges_the_codex_version_check() {
    assert_eq!(codex_version(None).unwrap_err().code, "CODEX_NOT_FOUND");
    let failed = VersionOutput { success: false, stdout: b"codex 1.0\n".to_vec() };
    let e = codex_version(Some(failed)).unwrap_err();
    assert_eq!((e.code, e.message.as_str()), ("CODEX_UNAVAILABLE", "Codex CLI did not pass its version check"));
    let ok = VersionOutput { success: true, stdout: b"  codex-cli 0.20.0\n".to_vec() };
    assert_eq!(codex_version(Some(ok)).unwrap(), "codex-cli 0.20.0");
    let lossy = VersionOutput { success: true, stdout: vec![b'v', 0xff, b'1'] };
    assert_eq!(codex_version(Some(lossy)).unwrap(), "v\u{fffd}1");
}
