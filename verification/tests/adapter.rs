use everything_codex::adapter::{build_args, AdapterError, RunConfig, Sandbox};
use everything_codex::service::default_sandbox;

fn config(thread_id: Option<&str>) -> RunConfig {
    RunConfig {
        binary: "codex".into(),
        workspace: "/tmp/project".into(),
        prompt: "hello".into(),
        thread_id: thread_id.map(str::to_owned),
        model: None,
        sandbox: Sandbox::WorkspaceWrite,
        images: vec![],
    }
}

#[test]
fn builds_new_task_args() {
    assert_eq!(
        build_args(&config(None)),
        [
            "exec",
            "--json",
            "--sandbox",
            "workspace-write",
            "--skip-git-repo-check",
            "-C",
            "/tmp/project",
            "-"
        ]
    );
}

#[test]
fn builds_resume_args() {
    assert_eq!(
        build_args(&config(Some("thread-1"))),
        [
            "exec",
            "--sandbox",
            "workspace-write",
            "--skip-git-repo-check",
            "-C",
            "/tmp/project",
            "resume",
            "--json",
            "thread-1",
            "-"
        ]
    );
}

#[test]
fn builds_args_with_model_and_images() {
    let mut c = config(None);
    c.model = Some("gpt-5".into());
    c.sandbox = Sandbox::ReadOnly;
    c.images = vec!["/tmp/a.png".into(), "/tmp/b.png".into()];
    assert_eq!(
        build_args(&c),
        [
            "exec",
            "--json",
            "--sandbox",
            "read-only",
            "--skip-git-repo-check",
            "-C",
            "/tmp/project",
            "--model",
            "gpt-5",
            "--image",
            "/tmp/a.png",
            "--image",
            "/tmp/b.png",
            "-"
        ]
    );
}

#[test]
fn builds_resume_args_with_model_and_image() {
    let mut c = config(Some("t-9"));
    c.model = Some("m".into());
    c.sandbox = Sandbox::DangerFullAccess;
    c.images = vec!["/i.png".into()];
    let args = build_args(&c);
    assert_eq!(
        args,
        [
            "exec",
            "--sandbox",
            "danger-full-access",
            "--skip-git-repo-check",
            "-C",
            "/tmp/project",
            "--model",
            "m",
            "resume",
            "--json",
            "--image",
            "/i.png",
            "t-9",
            "-"
        ]
    );
    assert_eq!(args.len(), 8 + 2 + 2 + 2);
}

#[test]
fn sandbox_flags() {
    assert_eq!(Sandbox::ReadOnly.as_str(), "read-only");
    assert_eq!(Sandbox::WorkspaceWrite.as_str(), "workspace-write");
    assert_eq!(Sandbox::DangerFullAccess.as_str(), "danger-full-access");
}

#[test]
fn default_sandbox_is_workspace_write() {
    assert_eq!(default_sandbox(), Sandbox::WorkspaceWrite);
}

#[test]
fn adapter_error_messages() {
    let spawn = AdapterError::Spawn(std::io::Error::new(std::io::ErrorKind::Other, "boom"));
    assert_eq!(spawn.message(), "failed to start Codex: boom");
    assert_eq!(AdapterError::MissingStdin.message(), "Codex stdin was unavailable");
    let write = AdapterError::WritePrompt(std::io::Error::new(std::io::ErrorKind::BrokenPipe, "pipe closed"));
    assert_eq!(write.message(), "failed to write prompt to Codex: pipe closed");
}
