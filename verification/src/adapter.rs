use vstd::prelude::*;
use crate::text::joined;

verus! {

/// The sandbox mode that Codex is asked to run a task in.
#[derive(Debug, Clone, Copy, PartialEq, Eq)]
pub enum Sandbox {
    ReadOnly,
    WorkspaceWrite,
    DangerFullAccess,
}

/// The command-line spelling of a sandbox mode.
pub open spec fn sandbox_flag(sandbox: Sandbox) -> Seq<char> {
    match sandbox {
        Sandbox::ReadOnly => "read-only"@,
        Sandbox::WorkspaceWrite => "workspace-write"@,
        Sandbox::DangerFullAccess => "danger-full-access"@,
    }
}

/// Each sandbox mode is spelled as Codex expects it, and no two alike.
pub proof fn law_sandbox_flags(a: Sandbox, b: Sandbox)
    ensures
        sandbox_flag(Sandbox::ReadOnly) == "read-only"@,
        sandbox_flag(Sandbox::WorkspaceWrite) == "workspace-write"@,
        sandbox_flag(Sandbox::DangerFullAccess) == "danger-full-access"@,
        a != b ==> sandbox_flag(a) != sandbox_flag(b),
{
    reveal_strlit("read-only");
    reveal_strlit("workspace-write");
    reveal_strlit("danger-full-access");
    assert("read-only"@[0] != "workspace-write"@[0]);
    assert("read-only"@[0] != "danger-full-access"@[0]);
    assert("workspace-write"@[0] != "danger-full-access"@[0]);
}

impl Sandbox {
    pub fn as_str(self) -> (s: &'static str)
        ensures
            s@ == sandbox_flag(self),
    {
        match self {
            Sandbox::ReadOnly => "read-only",
            Sandbox::WorkspaceWrite => "workspace-write",
            Sandbox::DangerFullAccess => "danger-full-access",
        }
    }
}

/// What a Codex task is started with. Paths are held as the text of the path.
#[derive(Debug, Clone)]
pub struct RunConfig {
    pub binary: String,
    pub workspace: String,
    pub prompt: String,
    pub thread_id: Option<String>,
    pub model: Option<String>,
    pub sandbox: Sandbox,
    pub images: Vec<String>,
}

/// `--image <path>` for each image, in order.
pub open spec fn image_flags(images: Seq<Seq<char>>) -> Seq<Seq<char>>
    decreases images.len(),
{
    if images.len() == 0 {
        seq![]
    } else {
        image_flags(images.drop_last()) + seq!["--image"@, images.last()]
    }
}

/// The flags shared by new and resumed tasks.
pub open spec fn common_flags(config: &RunConfig) -> Seq<Seq<char>> {
    seq!["--sandbox"@, sandbox_flag(config.sandbox), "--skip-git-repo-check"@, "-C"@, config.workspace@]
        + match config.model {
        Some(model) => seq!["--model"@, model@],
        None => seq![],
    }
}

/// The arguments Codex is started with: `exec --json <common> <images> -` for a
/// new thread, `exec <common> resume --json <images> <thread> -` to resume one.
/// The prompt itself is written to Codex's standard input.
pub open spec fn codex_args(config: &RunConfig) -> Seq<Seq<char>> {
    match config.thread_id {
        Some(thread_id) => seq!["exec"@] + common_flags(config) + seq!["resume"@, "--json"@]
            + image_flags(config.images.deep_view()) + seq![thread_id@, "-"@],
        None => seq!["exec"@, "--json"@] + common_flags(config) + image_flags(
            config.images.deep_view(),
        ) + seq!["-"@],
    }
}

fn push_arg(args: &mut Vec<String>, arg: &str)
    ensures
        final(args).deep_view() == old(args).deep_view().push(arg@),
{
    args.push(String::from_str(arg));
    assert(args.deep_view() =~= old(args).deep_view().push(arg@));
}

fn push_common_flags(args: &mut Vec<String>, config: &RunConfig)
    ensures
        final(args).deep_view() == old(args).deep_view() + common_flags(config),
{
    push_arg(args, "--sandbox");
    push_arg(args, config.sandbox.as_str());
    push_arg(args, "--skip-git-repo-check");
    push_arg(args, "-C");
    push_arg(args, config.workspace.as_str());
    match &config.model {
        Some(model) => {
            push_arg(args, "--model");
            push_arg(args, model.as_str());
        },
        None => {},
    }
    assert(args.deep_view() =~= old(args).deep_view() + common_flags(config));
}

fn push_image_flags(args: &mut Vec<String>, images: &Vec<String>)
    ensures
        final(args).deep_view() == old(args).deep_view() + image_flags(images.deep_view()),
{
    let ghost start = args.deep_view();
    let mut i: usize = 0;
    while i < images.len()
        invariant
            i <= images.len(),
            args.deep_view() == start + image_flags(images.deep_view().take(i as int)),
        decreases images.len() - i,
    {
        push_arg(args, "--image");
        push_arg(args, images[i].as_str());
        proof {
            let taken = images.deep_view().take(i as int + 1);
            assert(taken.drop_last() =~= images.deep_view().take(i as int));
            assert(taken.last() == images[i as int]@);
        }
        i = i + 1;
        assert(args.deep_view() =~= start + image_flags(images.deep_view().take(i as int)));
    }
    assert(images.deep_view().take(i as int) =~= images.deep_view());
}

/// Builds the command line Codex is started with for `config`.
pub fn build_args(config: &RunConfig) -> (args: Vec<String>)
    ensures
        args.deep_view() == codex_args(config),
{
    let mut args: Vec<String> = Vec::new();
    push_arg(&mut args, "exec");
    if config.thread_id.is_none() {
        push_arg(&mut args, "--json");
    }
    push_common_flags(&mut args, config);
    if config.thread_id.is_some() {
        push_arg(&mut args, "resume");
        push_arg(&mut args, "--json");
    }
    push_image_flags(&mut args, &config.images);
    match &config.thread_id {
        Some(thread_id) => push_arg(&mut args, thread_id.as_str()),
        None => {},
    }
    push_arg(&mut args, "-");
    assert(args.deep_view() =~= codex_args(config));
    args
}

proof fn lemma_image_flags_len(images: Seq<Seq<char>>)
    ensures
        image_flags(images).len() == 2 * images.len(),
    decreases images.len(),
{
    if images.len() > 0 {
        lemma_image_flags_len(images.drop_last());
    }
}

/// Where `--sandbox` stands: after `exec`, and after `--json` for a new thread.
pub open spec fn sandbox_position(config: &RunConfig) -> int {
    if config.thread_id is Some { 1 } else { 2 }
}

/// The shape of every Codex command line: it starts with `exec`, ends with `-`
/// (the prompt comes on standard input), names the sandbox right after
/// `--sandbox` and the workspace right after `-C`; a new thread asks for JSON
/// output first, a resumed one names its thread just before the final `-`.
/// A new thread with no model and no image takes 8 arguments; resuming adds
/// two, a model two and each image two.
pub proof fn law_codex_args_shape(config: &RunConfig)
    ensures
        codex_args(config)[0] == "exec"@,
        codex_args(config).last() == "-"@,
        codex_args(config)[sandbox_position(config)] == "--sandbox"@,
        codex_args(config)[sandbox_position(config) + 1] == sandbox_flag(config.sandbox),
        codex_args(config)[sandbox_position(config) + 3] == "-C"@,
        codex_args(config)[sandbox_position(config) + 4] == config.workspace@,
        codex_args(config).len() == 8 + (if config.thread_id is Some { 2int } else { 0int }) + (if config.model is Some { 2int } else { 0int }) + 2 * config.images@.len(),
        config.thread_id is None ==> codex_args(config)[1] == "--json"@,
        config.thread_id matches Some(t) ==> codex_args(config)[codex_args(config).len() - 2] == t@,
{
    let images = image_flags(config.images.deep_view());
    lemma_image_flags_len(config.images.deep_view());
    let args = codex_args(config);
    let c = common_flags(config);
    let m = match config.model {
        Some(model) => seq!["--model"@, model@],
        None => Seq::<Seq<char>>::empty(),
    };
    assert(c.len() == 5 + m.len());
    match config.thread_id {
        Some(t) => {
            let a1 = seq!["exec"@] + c;
            let a2 = a1 + seq!["resume"@, "--json"@];
            let a3 = a2 + images;
            assert(args == a3 + seq![t@, "-"@]);
            assert(a1[1] == c[0] && a1[2] == c[1] && a1[4] == c[3] && a1[5] == c[4]);
            assert(a3[1] == a1[1] && a3[2] == a1[2] && a3[4] == a1[4] && a3[5] == a1[5]);
        },
        None => {
            let a1 = seq!["exec"@, "--json"@] + c;
            let a2 = a1 + images;
            assert(args == a2 + seq!["-"@]);
            assert(a1[2] == c[0] && a1[3] == c[1] && a1[5] == c[3] && a1[6] == c[4]);
            assert(a2[1] == a1[1] && a2[2] == a1[2] && a2[3] == a1[3] && a2[5] == a1[5] && a2[6] == a1[6]);
        },
    }
    assert(config.images@.len() == config.images.deep_view().len());
}

proof fn lemma_image_flags_at(images: Seq<Seq<char>>, k: int)
    requires
        0 <= k < images.len(),
    ensures
        image_flags(images)[2 * k] == "--image"@,
        image_flags(images)[2 * k + 1] == images[k],
    decreases images.len(),
{
    lemma_image_flags_len(images.drop_last());
    if k < images.len() - 1 {
        lemma_image_flags_at(images.drop_last(), k);
    }
}

/// Where the image arguments start: after the sandbox, the repository flag,
/// the workspace, the model and, when resuming, `resume --json`.
pub open spec fn images_position(config: &RunConfig) -> int {
    sandbox_position(config) + 5 + (if config.model is Some { 2int } else { 0int }) + (if config.thread_id is Some { 2int } else { 0int })
}

proof fn lemma_image_arg(config: &RunConfig, k: int)
    requires
        0 <= k < config.images@.len(),
    ensures
        codex_args(config)[images_position(config) + 2 * k] == "--image"@,
        codex_args(config)[images_position(config) + 2 * k + 1] == config.images@[k]@,
{
    let images = image_flags(config.images.deep_view());
    lemma_image_flags_len(config.images.deep_view());
    let args = codex_args(config);
    let c = common_flags(config);
    let q = images_position(config);
    lemma_image_flags_at(config.images.deep_view(), k);
    assert(config.images.deep_view()[k] == config.images@[k]@);
    match config.thread_id {
        Some(t) => {
            let a3 = seq!["exec"@] + c + seq!["resume"@, "--json"@] + images;
            assert(args == a3 + seq![t@, "-"@]);
            assert(a3[q + 2 * k] == images[2 * k]);
            assert(a3[q + 2 * k + 1] == images[2 * k + 1]);
            assert(args[q + 2 * k] == a3[q + 2 * k]);
            assert(args[q + 2 * k + 1] == a3[q + 2 * k + 1]);
        },
        None => {
            let a2 = seq!["exec"@, "--json"@] + c + images;
            assert(args == a2 + seq!["-"@]);
            assert(a2[q + 2 * k] == images[2 * k]);
            assert(a2[q + 2 * k + 1] == images[2 * k + 1]);
            assert(args[q + 2 * k] == a2[q + 2 * k]);
            assert(args[q + 2 * k + 1] == a2[q + 2 * k + 1]);
        },
    }
}

proof fn lemma_args_prefix(config: &RunConfig)
    ensures
        codex_args(config)[sandbox_position(config) + 2] == "--skip-git-repo-check"@,
        config.model matches Some(model) ==> codex_args(config)[sandbox_position(config) + 5] == "--model"@
            && codex_args(config)[sandbox_position(config) + 6] == model@,
        config.thread_id is Some ==> codex_args(config)[images_position(config) - 2] == "resume"@
            && codex_args(config)[images_position(config) - 1] == "--json"@,
{
    let images = image_flags(config.images.deep_view());
    lemma_image_flags_len(config.images.deep_view());
    let args = codex_args(config);
    let c = common_flags(config);
    let q = images_position(config);
    match config.thread_id {
        Some(t) => {
            let a1 = seq!["exec"@] + c;
            let a2 = a1 + seq!["resume"@, "--json"@];
            let a3 = a2 + images;
            assert(args == a3 + seq![t@, "-"@]);
            assert(a3[q - 2] == a2[q - 2] && a3[q - 1] == a2[q - 1]);
            assert(a3[3] == a1[3]);
            if config.model is Some {
                assert(a3[6] == a1[6] && a3[7] == a1[7]);
            }
        },
        None => {
            let a1 = seq!["exec"@, "--json"@] + c;
            let a2 = a1 + images;
            assert(args == a2 + seq!["-"@]);
            assert(a2[4] == a1[4]);
            if config.model is Some {
                assert(a2[7] == a1[7] && a2[8] == a1[8]);
            }
        },
    }
}

/// Every argument of a Codex command line in its place: `--skip-git-repo-check`
/// after the workspace, then `--model <model>` when a model is asked for, then
/// `resume --json` when resuming, then `--image <path>` for each image in the
/// order given.
pub proof fn law_codex_args_in_order(config: &RunConfig)
    ensures
        codex_args(config)[sandbox_position(config) + 2] == "--skip-git-repo-check"@,
        config.model matches Some(model) ==> codex_args(config)[sandbox_position(config) + 5] == "--model"@
            && codex_args(config)[sandbox_position(config) + 6] == model@,
        config.thread_id is Some ==> codex_args(config)[images_position(config) - 2] == "resume"@
            && codex_args(config)[images_position(config) - 1] == "--json"@,
        forall|k: int|
            0 <= k < config.images@.len() ==> #[trigger] codex_args(config)[images_position(config) + 2 * k] == "--image"@,
        forall|k: int|
            0 <= k < config.images@.len() ==> #[trigger] codex_args(config)[images_position(config) + 2 * k + 1] == config.images@[k]@,
{
    lemma_args_prefix(config);
    assert forall|k: int|
        0 <= k < config.images@.len() implies #[trigger] codex_args(config)[images_position(config) + 2 * k] == "--image"@ by {
        lemma_image_arg(config, k);
    }
    assert forall|k: int|
        0 <= k < config.images@.len() implies #[trigger] codex_args(config)[images_position(config) + 2 * k + 1] == config.images@[k]@ by {
        lemma_image_arg(config, k);
    }
}

/// `std::io::Error`, declared so that the adapter's errors can carry it.
#[verifier::external_type_specification]
#[verifier::external_body]
pub struct ExIoError(std::io::Error);

/// Why a Codex task could not be started.
#[derive(Debug)]
pub enum AdapterError {
    Spawn(std::io::Error),
    MissingStdin,
    WritePrompt(std::io::Error),
}

/// The `Display` text of an I/O error. It depends on the operating system's
/// own description of the error, so nothing is stated of it.
#[verifier::external_body]
fn io_error_text(error: &std::io::Error) -> String {
    error.to_string()
}

impl AdapterError {
    /// The error's message: a fixed sentence, followed for I/O failures by the
    /// text of the I/O error.
    pub fn message(&self) -> (r: String)
        ensures
            match self {
                AdapterError::Spawn(_) => exists|detail: Seq<char>| r@ == "failed to start Codex: "@ + detail,
                AdapterError::MissingStdin => r@ == "Codex stdin was unavailable"@,
                AdapterError::WritePrompt(_) => exists|detail: Seq<char>|
                    r@ == "failed to write prompt to Codex: "@ + detail,
            },
    {
        match self {
            AdapterError::Spawn(error) => {
                let detail = io_error_text(error);
                joined("failed to start Codex: ", detail.as_str())
            },
            AdapterError::MissingStdin => String::from_str("Codex stdin was unavailable"),
            AdapterError::WritePrompt(error) => {
                let detail = io_error_text(error);
                joined("failed to write prompt to Codex: ", detail.as_str())
            },
        }
    }
}

} // verus!
