use vstd::prelude::*;
use crate::adapter::{RunConfig, Sandbox};
use crate::errors::{ServiceError, ErrorView, invalid_params_error, domain_error};
use crate::registry::{TaskRegistry, TaskState, already_exists_error};
use crate::text::{str_eq, joined, joined3, trim, utf8_lossy, utf8_lossy_text, str_trim, blank, is_blank};

verus! {

/// The JSON-RPC methods the runtime serves.
#[derive(Debug, Clone, Copy, PartialEq, Eq)]
pub enum Request {
    Initialize,
    CheckCodex,
    StartTask,
    TaskStatus,
    StopTask,
    Shutdown,
}

pub open spec fn not_initialized_error() -> ErrorView {
    domain_error("RUNTIME_NOT_INITIALIZED"@, "runtime/initialize must be called first"@)
}

pub open spec fn method_not_found_error(method: Seq<char>) -> ErrorView {
    ErrorView { rpc_code: -32601, code: "METHOD_NOT_FOUND"@, message: "unknown method: "@ + method }
}

/// How a request for `method` is dispatched: `runtime/initialize` always,
/// every other method only once the runtime is initialized.
pub open spec fn route_outcome(method: Seq<char>, initialized: bool) -> Result<Request, ErrorView> {
    if method == "runtime/initialize"@ {
        Ok(Request::Initialize)
    } else if !initialized {
        Err(not_initialized_error())
    } else if method == "codex/check"@ {
        Ok(Request::CheckCodex)
    } else if method == "task/start"@ {
        Ok(Request::StartTask)
    } else if method == "task/status"@ {
        Ok(Request::TaskStatus)
    } else if method == "task/stop"@ {
        Ok(Request::StopTask)
    } else if method == "runtime/shutdown"@ {
        Ok(Request::Shutdown)
    } else {
        Err(method_not_found_error(method))
    }
}

/// Decides which method a request for `method` runs, given whether the
/// runtime has been initialized.
pub fn route(method: &str, initialized: bool) -> (r: Result<Request, ServiceError>)
    ensures
        match r {
            Ok(request) => route_outcome(method@, initialized) == Ok::<Request, ErrorView>(request),
            Err(e) => route_outcome(method@, initialized) == Err::<Request, ErrorView>(e@),
        },
{
    if str_eq(method, "runtime/initialize") {
        return Ok(Request::Initialize);
    }
    if !initialized {
        return Err(
            ServiceError::domain(
                "RUNTIME_NOT_INITIALIZED",
                String::from_str("runtime/initialize must be called first"),
            ),
        );
    }
    if str_eq(method, "codex/check") {
        Ok(Request::CheckCodex)
    } else if str_eq(method, "task/start") {
        Ok(Request::StartTask)
    } else if str_eq(method, "task/status") {
        Ok(Request::TaskStatus)
    } else if str_eq(method, "task/stop") {
        Ok(Request::StopTask)
    } else if str_eq(method, "runtime/shutdown") {
        Ok(Request::Shutdown)
    } else {
        Err(
            ServiceError {
                rpc_code: -32601,
                code: "METHOD_NOT_FOUND",
                message: joined("unknown method: ", method),
            },
        )
    }
}

/// Whether the session ends after answering a request for `method`.
pub fn ends_session(method: &str) -> (r: bool)
    ensures
        r == (method@ == "runtime/shutdown"@),
{
    str_eq(method, "runtime/shutdown")
}

/// The one protocol version this runtime speaks.
pub open spec fn protocol_version() -> Seq<char> {
    "1.0"@
}

/// Accepts the protocol version a host asks for, or answers
/// `PROTOCOL_VERSION_UNSUPPORTED`.
pub fn check_protocol_version(version: &str) -> (r: Result<(), ServiceError>)
    ensures
        match r {
            Ok(()) => version@ == protocol_version(),
            Err(e) => version@ != protocol_version() && e@ == domain_error(
                "PROTOCOL_VERSION_UNSUPPORTED"@,
                "protocol "@ + version@ + " is unsupported"@,
            ),
        },
{
    if str_eq(version, "1.0") {
        Ok(())
    } else {
        Err(
            ServiceError::domain(
                "PROTOCOL_VERSION_UNSUPPORTED",
                joined3("protocol ", version, " is unsupported"),
            ),
        )
    }
}

/// Accepts a request that names JSON-RPC `2.0`, or answers `INVALID_PARAMS`.
pub fn check_jsonrpc_version(jsonrpc: &str) -> (r: Result<(), ServiceError>)
    ensures
        match r {
            Ok(()) => jsonrpc@ == "2.0"@,
            Err(e) => jsonrpc@ != "2.0"@ && e@ == invalid_params_error("jsonrpc must be 2.0"@),
        },
{
    if str_eq(jsonrpc, "2.0") {
        Ok(())
    } else {
        Err(ServiceError::invalid(String::from_str("jsonrpc must be 2.0")))
    }
}

/// The Codex binary: the configured one, else `codex` on the search path.
pub fn resolve_binary(configured: Option<String>) -> (r: String)
    ensures
        match configured {
            Some(binary) => r == binary,
            None => r@ == "codex"@,
        },
{
    match configured {
        Some(binary) => binary,
        None => String::from_str("codex"),
    }
}

/// The sandbox a task runs in when the host names none.
pub fn default_sandbox() -> (r: Sandbox)
    ensures
        r == Sandbox::WorkspaceWrite,
{
    Sandbox::WorkspaceWrite
}

/// A workspace path once resolved: its canonical form, whether it has a parent
/// (a filesystem root has none) and whether it is the user's home directory.
pub struct ResolvedWorkspace {
    pub path: String,
    pub has_parent: bool,
    pub is_home: bool,
}

/// What the filesystem says of a requested workspace path.
pub struct WorkspaceProbe {
    pub absolute: bool,
    pub is_dir: bool,
    pub resolved: Option<ResolvedWorkspace>,
}

pub open spec fn workspace_invalid_error(message: Seq<char>) -> ErrorView {
    domain_error("WORKSPACE_INVALID"@, message)
}

pub open spec fn workspace_too_broad_error() -> ErrorView {
    domain_error("WORKSPACE_TOO_BROAD"@, "workspace may not be a filesystem or home root"@)
}

/// The workspace a task may run in: an existing absolute directory, resolved,
/// that is neither a filesystem root nor the home directory.
pub open spec fn workspace_outcome(probe: WorkspaceProbe) -> Result<String, ErrorView> {
    if !probe.absolute || !probe.is_dir {
        Err(workspace_invalid_error("workspace must be an existing absolute directory"@))
    } else {
        match probe.resolved {
            None => Err(workspace_invalid_error("workspace could not be resolved"@)),
            Some(resolved) => if !resolved.has_parent || resolved.is_home {
                Err(workspace_too_broad_error())
            } else {
                Ok(resolved.path)
            },
        }
    }
}

/// Validates a requested workspace from what the filesystem says of it and
/// gives back its canonical path.
pub fn check_workspace(probe: WorkspaceProbe) -> (r: Result<String, ServiceError>)
    ensures
        match r {
            Ok(path) => workspace_outcome(probe) == Ok::<String, ErrorView>(path),
            Err(e) => workspace_outcome(probe) == Err::<String, ErrorView>(e@),
        },
{
    if !probe.absolute || !probe.is_dir {
        return Err(
            ServiceError::domain(
                "WORKSPACE_INVALID",
                String::from_str("workspace must be an existing absolute directory"),
            ),
        );
    }
    match probe.resolved {
        None => Err(
            ServiceError::domain(
                "WORKSPACE_INVALID",
                String::from_str("workspace could not be resolved"),
            ),
        ),
        Some(resolved) => if !resolved.has_parent || resolved.is_home {
            Err(
                ServiceError::domain(
                    "WORKSPACE_TOO_BROAD",
                    String::from_str("workspace may not be a filesystem or home root"),
                ),
            )
        } else {
            Ok(resolved.path)
        },
    }
}

/// A lowercase hexadecimal digit.
pub open spec fn is_lower_hex(c: char) -> bool {
    ('0' <= c <= '9') || ('a' <= c <= 'f')
}

/// The hyphenated text of a version 4 UUID: 36 characters, hyphens at offsets
/// 8, 13, 18 and 23, lowercase hexadecimal digits elsewhere, the version digit
/// `4` at offset 14 and the variant digit (one of `8`, `9`, `a`, `b`) at 19.
pub open spec fn is_uuid_v4_text(s: Seq<char>) -> bool {
    &&& s.len() == 36
    &&& forall|i: int|
        0 <= i < 36 ==> if i == 8 || i == 13 || i == 18 || i == 23 {
            #[trigger] s[i] == '-'
        } else {
            is_lower_hex(s[i])
        }
    &&& s[14] == '4'
    &&& (s[19] == '8' || s[19] == '9' || s[19] == 'a' || s[19] == 'b')
}

/// A fresh random task id: `Uuid::new_v4().to_string()`, the hyphenated
/// lowercase text of a version 4 UUID. Which id comes out is left to chance.
#[verifier::external_body]
fn fresh_task_id() -> (r: String)
    ensures
        is_uuid_v4_text(r@),
{
    uuid::Uuid::new_v4().to_string()
}

/// The parameters of a `task/start` request.
pub struct StartRequest {
    pub task_id: Option<String>,
    pub prompt: String,
    pub thread_id: Option<String>,
    pub model: Option<String>,
    pub sandbox: Sandbox,
    pub images: Vec<String>,
}

pub open spec fn empty_prompt_error() -> ErrorView {
    invalid_params_error("prompt must not be empty"@)
}

/// What `task/start` decides for `request` under id `task_id`, before Codex is
/// spawned: the task id and the configuration to spawn, or the error answered.
pub open spec fn start_outcome<H>(
    tasks: Map<Seq<char>, TaskState<H>>,
    binary: String,
    request: StartRequest,
    probe: WorkspaceProbe,
    task_id: String,
) -> Result<(String, RunConfig), ErrorView> {
    if blank(request.prompt@) {
        Err(empty_prompt_error())
    } else {
        match workspace_outcome(probe) {
            Err(e) => Err(e),
            Ok(workspace) => if tasks.contains_key(task_id@) {
                Err(already_exists_error(task_id@))
            } else {
                Ok(
                    (
                        task_id,
                        RunConfig {
                            binary,
                            workspace,
                            prompt: request.prompt,
                            thread_id: request.thread_id,
                            model: request.model,
                            sandbox: request.sandbox,
                            images: request.images,
                        },
                    ),
                )
            },
        }
    }
}

pub open spec fn start_matches(r: Result<(String, RunConfig), ServiceError>, outcome: Result<(String, RunConfig), ErrorView>) -> bool {
    match r {
        Ok(planned) => outcome == Ok::<(String, RunConfig), ErrorView>(planned),
        Err(e) => outcome == Err::<(String, RunConfig), ErrorView>(e@),
    }
}

/// Decides a `task/start` request: checks the prompt, the workspace and that
/// the task id is new; the id is the requested one, or a fresh random one when
/// the request names none. Gives back the id and the configuration to spawn.
pub fn plan_start<H>(
    registry: &TaskRegistry<H>,
    binary: String,
    request: StartRequest,
    probe: WorkspaceProbe,
) -> (r: Result<(String, RunConfig), ServiceError>)
    ensures
        blank(request.prompt@) ==> (r matches Err(e) && e@ == empty_prompt_error()),
        !blank(request.prompt@) && workspace_outcome(probe) is Err ==> (r matches Err(e) && workspace_outcome(probe) == Err::<String, ErrorView>(e@)),
        request.task_id matches Some(id) ==> start_matches(r, start_outcome(registry.tasks(), binary, request, probe, id)),
        request.task_id is None && !blank(request.prompt@) && workspace_outcome(probe) is Ok ==> exists|id: String|
            #![trigger start_outcome(registry.tasks(), binary, request, probe, id)]
            is_uuid_v4_text(id@) && start_matches(r, start_outcome(registry.tasks(), binary, request, probe, id)),
{
    if is_blank(request.prompt.as_str()) {
        return Err(ServiceError::invalid(String::from_str("prompt must not be empty")));
    }
    let workspace = match check_workspace(probe) {
        Ok(path) => path,
        Err(e) => return Err(e),
    };
    let ghost request_view = request;
    let StartRequest { task_id, prompt, thread_id, model, sandbox, images } = request;
    let task_id = match task_id {
        Some(id) => id,
        None => fresh_task_id(),
    };
    let ghost outcome = start_outcome(registry.tasks(), binary, request_view, probe, task_id);
    if registry.contains(task_id.as_str()) {
        let message = joined("task already exists: ", task_id.as_str());
        let r = Err(ServiceError::domain("TASK_ALREADY_EXISTS", message));
        assert(start_matches(r, outcome));
        return r;
    }
    let config = RunConfig { binary, workspace, prompt, thread_id, model, sandbox, images };
    let r = Ok((task_id, config));
    assert(start_matches(r, outcome));
    r
}

/// What running `codex --version` gave: whether it exited successfully, and
/// its standard output.
pub struct VersionOutput {
    pub success: bool,
    pub stdout: Vec<u8>,
}

pub open spec fn codex_not_found_error() -> ErrorView {
    domain_error("CODEX_NOT_FOUND"@, "Codex CLI was not found"@)
}

pub open spec fn codex_unavailable_error() -> ErrorView {
    domain_error("CODEX_UNAVAILABLE"@, "Codex CLI did not pass its version check"@)
}

/// Judges the Codex version check: `None` when the binary could not be run.
/// Gives back the reported version, trimmed.
pub fn codex_version(output: Option<VersionOutput>) -> (r: Result<String, ServiceError>)
    ensures
        match output {
            None => r matches Err(e) && e@ == codex_not_found_error(),
            Some(out) => if out.success {
                r matches Ok(version) && version@ == str_trim(utf8_lossy_text(out.stdout@))
            } else {
                r matches Err(e) && e@ == codex_unavailable_error()
            },
        },
{
    match output {
        None => Err(
            ServiceError::domain("CODEX_NOT_FOUND", String::from_str("Codex CLI was not found")),
        ),
        Some(out) => if out.success {
            let text = utf8_lossy(out.stdout.as_slice());
            Ok(String::from_str(trim(text.as_str())))
        } else {
            Err(
                ServiceError::domain(
                    "CODEX_UNAVAILABLE",
                    String::from_str("Codex CLI did not pass its version check"),
                ),
            )
        },
    }
}

/// Before `runtime/initialize` every other method is refused with
/// `RUNTIME_NOT_INITIALIZED`; `runtime/initialize` itself is always served.
pub proof fn law_initialize_first(method: Seq<char>)
    ensures
        route_outcome("runtime/initialize"@, false) == Ok::<Request, ErrorView>(Request::Initialize),
        route_outcome("runtime/initialize"@, true) == Ok::<Request, ErrorView>(Request::Initialize),
        method != "runtime/initialize"@ ==> route_outcome(method, false) == Err::<Request, ErrorView>(not_initialized_error()),
{
}

/// A workspace is accepted only when it is an existing absolute directory
/// that could be resolved and is neither a filesystem root nor the home
/// directory; what is accepted is its resolved path.
pub proof fn law_workspace_accepted_only_if_safe(probe: WorkspaceProbe)
    ensures
        workspace_outcome(probe) matches Ok(path) ==> {
            &&& probe.absolute
            &&& probe.is_dir
            &&& probe.resolved matches Some(resolved)
            &&& resolved.has_parent
            &&& !resolved.is_home
            &&& path == resolved.path
        },
        probe.resolved matches Some(resolved) && probe.absolute && probe.is_dir && (resolved.is_home || !resolved.has_parent)
            ==> workspace_outcome(probe) == Err::<String, ErrorView>(workspace_too_broad_error()),
{
}

/// Every safe workspace is accepted: an existing absolute directory that
/// resolves to a path that is neither a filesystem root nor the home directory
/// is accepted as that path. A path that is not an existing absolute directory
/// is refused as invalid, and so is one that cannot be resolved.
pub proof fn law_workspace_safe_accepted(probe: WorkspaceProbe)
    ensures
        probe.resolved matches Some(resolved) ==> (probe.absolute && probe.is_dir && resolved.has_parent
            && !resolved.is_home ==> workspace_outcome(probe) == Ok::<String, ErrorView>(resolved.path)),
        !probe.absolute || !probe.is_dir ==> workspace_outcome(probe) == Err::<String, ErrorView>(
            workspace_invalid_error("workspace must be an existing absolute directory"@),
        ),
        probe.absolute && probe.is_dir && probe.resolved is None ==> workspace_outcome(probe) == Err::<
            String,
            ErrorView,
        >(workspace_invalid_error("workspace could not be resolved"@)),
{
}

/// A start is accepted whenever the prompt is not blank, the workspace is
/// accepted and the id is new; it is then planned under that id, in the
/// accepted workspace, with the requested prompt, thread, model, sandbox and
/// images. Otherwise the first failing check is answered: a blank prompt, then
/// the workspace, then an id already in use.
pub proof fn law_start_accepts<H>(
    tasks: Map<Seq<char>, TaskState<H>>,
    binary: String,
    request: StartRequest,
    probe: WorkspaceProbe,
    task_id: String,
)
    ensures
        workspace_outcome(probe) matches Ok(workspace) ==> (!blank(request.prompt@) && !tasks.contains_key(task_id@)
            ==> start_outcome(tasks, binary, request, probe, task_id) == Ok::<(String, RunConfig), ErrorView>(
            (
                task_id,
                RunConfig {
                    binary,
                    workspace,
                    prompt: request.prompt,
                    thread_id: request.thread_id,
                    model: request.model,
                    sandbox: request.sandbox,
                    images: request.images,
                },
            ),
        )),
        blank(request.prompt@) ==> start_outcome(tasks, binary, request, probe, task_id) == Err::<
            (String, RunConfig),
            ErrorView,
        >(empty_prompt_error()),
        workspace_outcome(probe) matches Err(e) ==> (!blank(request.prompt@) ==> start_outcome(tasks, binary, request, probe, task_id)
            == Err::<(String, RunConfig), ErrorView>(e)),
        !blank(request.prompt@) && workspace_outcome(probe) is Ok && tasks.contains_key(task_id@)
            ==> start_outcome(tasks, binary, request, probe, task_id) == Err::<(String, RunConfig), ErrorView>(
            already_exists_error(task_id@),
        ),
{
}

/// Once initialized, each method name is routed to its own request, and any
/// other name is answered `METHOD_NOT_FOUND` naming it.
pub proof fn law_routes(method: Seq<char>)
    ensures
        route_outcome("codex/check"@, true) == Ok::<Request, ErrorView>(Request::CheckCodex),
        route_outcome("task/start"@, true) == Ok::<Request, ErrorView>(Request::StartTask),
        route_outcome("task/status"@, true) == Ok::<Request, ErrorView>(Request::TaskStatus),
        route_outcome("task/stop"@, true) == Ok::<Request, ErrorView>(Request::StopTask),
        route_outcome("runtime/shutdown"@, true) == Ok::<Request, ErrorView>(Request::Shutdown),
        method != "runtime/initialize"@ && method != "codex/check"@ && method != "task/start"@ && method
            != "task/status"@ && method != "task/stop"@ && method != "runtime/shutdown"@
            ==> route_outcome(method, true) == Err::<Request, ErrorView>(method_not_found_error(method)),
{
    reveal_strlit("runtime/initialize");
    reveal_strlit("codex/check");
    reveal_strlit("task/start");
    reveal_strlit("task/status");
    reveal_strlit("task/stop");
    reveal_strlit("runtime/shutdown");
    assert("runtime/initialize"@[0] != "codex/check"@[0]);
    assert("runtime/initialize"@[0] != "task/start"@[0]);
    assert("runtime/initialize"@[0] != "task/status"@[0]);
    assert("runtime/initialize"@[0] != "task/stop"@[0]);
    assert("runtime/initialize"@[8] != "runtime/shutdown"@[8]);
    assert("codex/check"@[0] != "task/start"@[0]);
    assert("codex/check"@[0] != "task/status"@[0]);
    assert("codex/check"@[0] != "task/stop"@[0]);
    assert("codex/check"@[0] != "runtime/shutdown"@[0]);
    assert("task/start"@[8] != "task/status"@[8]);
    assert("task/start"@[7] != "task/stop"@[7]);
    assert("task/start"@[0] != "runtime/shutdown"@[0]);
    assert("task/status"@[7] != "task/stop"@[7]);
    assert("task/status"@[0] != "runtime/shutdown"@[0]);
    assert("task/stop"@[0] != "runtime/shutdown"@[0]);
}

/// A task is started only for a prompt that is not blank, in an accepted
/// workspace, under an id that no task has yet; it runs with the requested
/// thread, model, sandbox and images.
pub proof fn law_start_checks<H>(
    tasks: Map<Seq<char>, TaskState<H>>,
    binary: String,
    request: StartRequest,
    probe: WorkspaceProbe,
    task_id: String,
)
    ensures
        start_outcome(tasks, binary, request, probe, task_id) matches Ok((id, config)) ==> {
            &&& !blank(request.prompt@)
            &&& workspace_outcome(probe) == Ok::<String, ErrorView>(config.workspace)
            &&& id == task_id
            &&& !tasks.contains_key(id@)
            &&& config.binary == binary
            &&& config.prompt == request.prompt
            &&& config.thread_id == request.thread_id
            &&& config.model == request.model
            &&& config.sandbox == request.sandbox
            &&& config.images == request.images
        },
        tasks.contains_key(task_id@) ==> start_outcome(tasks, binary, request, probe, task_id) is Err,
{
}

} // verus!
