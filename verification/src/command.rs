//! What a command line asks to be done.

use crate::arg::{Arg, ArgError, ArgErrorView, ArgView, Content, ContentView};
use crate::args;
use crate::args::{is_command, is_subcommand, ArgTable, Invocation, InvocationView};
use crate::digest::{DigestArgs, DigestArgsView};
use crate::fulcio::{FulcioArgs, FulcioArgsView};
use crate::inspect::{InspectArgs, InspectArgsView};
use crate::pull::{PullArgs, PullArgsView};
use crate::push::{PushArgs, PushArgsView};
use crate::remote::{RemoteArgs, RemoteArgsView};
use crate::run::{RunArgs, RunArgsView};
use crate::scaffold::{ManifestArgs, ManifestArgsView};
use crate::text::same;
use crate::verification::{VerificationArgs, VerificationArgsView};
use crate::verify::{VerifyArgs, VerifyArgsView};
use vstd::prelude::*;

verus! {

/// A command with its arguments.
pub enum Command {
    /// List the policies of the local store.
    Policies,
    Pull(PullArgs),
    Verify(VerifyArgs),
    Push(PushArgs),
    /// Remove a policy from the local store.
    Rm { uri: String },
    Run(RunArgs),
    /// Write a policy's metadata into its file.
    Annotate { wasm_path: String, metadata_path: String, destination: String },
    Inspect(InspectArgs),
    /// Write a verification configuration.
    ScaffoldVerificationConfig,
    ScaffoldManifest(ManifestArgs),
    /// A scaffold of nothing in particular, which writes nothing.
    ScaffoldNothing,
    /// Write the completions of a shell.
    Completions { shell: String },
    Digest(DigestArgs),
}

pub enum CommandView {
    Policies,
    Pull(PullArgsView),
    Verify(VerifyArgsView),
    Push(PushArgsView),
    Rm { uri: Seq<char> },
    Run(RunArgsView),
    Annotate { wasm_path: Seq<char>, metadata_path: Seq<char>, destination: Seq<char> },
    Inspect(InspectArgsView),
    ScaffoldVerificationConfig,
    ScaffoldManifest(ManifestArgsView),
    ScaffoldNothing,
    Completions { shell: Seq<char> },
    Digest(DigestArgsView),
}

impl View for Command {
    type V = CommandView;

    open spec fn view(&self) -> CommandView {
        match *self {
            Command::Policies => CommandView::Policies,
            Command::Pull(args) => CommandView::Pull(args@),
            Command::Verify(args) => CommandView::Verify(args@),
            Command::Push(args) => CommandView::Push(args@),
            Command::Rm { uri } => CommandView::Rm { uri: uri@ },
            Command::Run(args) => CommandView::Run(args@),
            Command::Annotate { wasm_path, metadata_path, destination } => CommandView::Annotate {
                wasm_path: wasm_path@,
                metadata_path: metadata_path@,
                destination: destination@,
            },
            Command::Inspect(args) => CommandView::Inspect(args@),
            Command::ScaffoldVerificationConfig => CommandView::ScaffoldVerificationConfig,
            Command::ScaffoldManifest(args) => CommandView::ScaffoldManifest(args@),
            Command::ScaffoldNothing => CommandView::ScaffoldNothing,
            Command::Completions { shell } => CommandView::Completions { shell: shell@ },
            Command::Digest(args) => CommandView::Digest(args@),
        }
    }
}

/// Why a command line asks for nothing that can be done.
pub enum CommandError {
    /// It names no subcommand.
    NoSubcommand,
    /// It names one that is not known.
    Unknown(String),
    /// It has an argument that gives no answer and is needed before all else.
    Argument(ArgError),
}

pub enum CommandErrorView {
    NoSubcommand,
    Unknown(Seq<char>),
    Argument(ArgErrorView),
}

impl View for CommandError {
    type V = CommandErrorView;

    open spec fn view(&self) -> CommandErrorView {
        match *self {
            CommandError::NoSubcommand => CommandErrorView::NoSubcommand,
            CommandError::Unknown(name) => CommandErrorView::Unknown(name@),
            CommandError::Argument(error) => CommandErrorView::Argument(error@),
        }
    }
}

impl CommandError {
    /// The message that the user gets.
    pub open spec fn text(self) -> Seq<char> {
        match self {
            CommandError::NoSubcommand => "no subcommand"@,
            CommandError::Unknown(name) => "unknown subcommand: "@ + name@,
            CommandError::Argument(error) => error.text(),
        }
    }

    /// The message that the user gets.
    pub fn message(&self) -> (res: String)
        ensures
            res@ == self.text(),
    {
        match self {
            CommandError::NoSubcommand => "no subcommand".to_owned(),
            CommandError::Unknown(name) => "unknown subcommand: ".to_owned().concat(name.as_str()),
            CommandError::Argument(error) => error.message(),
        }
    }
}

/// The argument with this id. One that was not looked up may not be asked for.
pub open spec fn arg_of(args: Map<Seq<char>, ContentView>, id: Seq<char>) -> ArgView {
    ArgView {
        id,
        content: if args.contains_key(id) {
            args[id]
        } else {
            ContentView::Unknown
        },
    }
}

/// What comes of an argument that gives no answer.
pub open spec fn no_answer(error: ArgErrorView) -> Result<CommandView, CommandErrorView> {
    Err(CommandErrorView::Argument(error))
}

pub open spec fn remote_args(args: Map<Seq<char>, ContentView>) -> RemoteArgsView {
    RemoteArgsView {
        sources_path: arg_of(args, "sources-path"@),
        docker_config_json_path: arg_of(args, "docker-config-json-path"@),
    }
}

pub open spec fn verification_args(args: Map<Seq<char>, ContentView>) -> VerificationArgsView {
    VerificationArgsView {
        verification_key: arg_of(args, "verification-key"@),
        verification_annotation: arg_of(args, "verification-annotation"@),
        cert_email: arg_of(args, "cert-email"@),
        cert_oidc_issuer: arg_of(args, "cert-oidc-issuer"@),
        github_owner: arg_of(args, "github-owner"@),
        github_repo: arg_of(args, "github-repo"@),
        verification_config_path: arg_of(args, "verification-config-path"@),
    }
}

pub open spec fn fulcio_args(args: Map<Seq<char>, ContentView>) -> FulcioArgsView {
    FulcioArgsView {
        fulcio_cert_path: arg_of(args, "fulcio-cert-path"@),
        rekor_public_key_path: arg_of(args, "rekor-public-key-path"@),
    }
}

pub open spec fn pull_command(args: Map<Seq<char>, ContentView>) -> Result<
    CommandView,
    CommandErrorView,
> {
    match arg_of(args, "uri"@).required() {
        Err(error) => no_answer(error),
        Ok(uri) => match arg_of(args, "output-path"@).one() {
            Err(error) => no_answer(error),
            Ok(output_path) => Ok(
                CommandView::Pull(
                    PullArgsView {
                        uri,
                        output_path,
                        remote: remote_args(args),
                        verification: verification_args(args),
                        fulcio: fulcio_args(args),
                    },
                ),
            ),
        },
    }
}

pub open spec fn verify_command(args: Map<Seq<char>, ContentView>) -> Result<
    CommandView,
    CommandErrorView,
> {
    match arg_of(args, "uri"@).required() {
        Err(error) => no_answer(error),
        Ok(uri) => Ok(
            CommandView::Verify(
                VerifyArgsView {
                    uri,
                    remote: remote_args(args),
                    verification: verification_args(args),
                    fulcio: fulcio_args(args),
                },
            ),
        ),
    }
}

/// No argument of a push is needed before the options of remote servers.
pub open spec fn push_command(args: Map<Seq<char>, ContentView>) -> CommandView {
    CommandView::Push(
        PushArgsView {
            policy: arg_of(args, "policy"@),
            uri: arg_of(args, "uri"@),
            remote: remote_args(args),
            force: arg_of(args, "force"@),
            output: arg_of(args, "output"@),
        },
    )
}

pub open spec fn rm_command(args: Map<Seq<char>, ContentView>) -> Result<
    CommandView,
    CommandErrorView,
> {
    match arg_of(args, "uri"@).required() {
        Err(error) => no_answer(error),
        Ok(uri) => Ok(CommandView::Rm { uri }),
    }
}

pub open spec fn run_command(args: Map<Seq<char>, ContentView>) -> Result<
    CommandView,
    CommandErrorView,
> {
    match arg_of(args, "uri"@).required() {
        Err(error) => no_answer(error),
        Ok(uri) => match arg_of(args, "request-path"@).required() {
            Err(error) => no_answer(error),
            Ok(request_path) => Ok(
                CommandView::Run(
                    RunArgsView {
                        uri,
                        request_path,
                        settings_path: arg_of(args, "settings-path"@),
                        settings_json: arg_of(args, "settings-json"@),
                        remote: remote_args(args),
                        execution_mode: arg_of(args, "execution-mode"@),
                        verification: verification_args(args),
                        fulcio: fulcio_args(args),
                        disable_wasmtime_cache: arg_of(args, "disable-wasmtime-cache"@),
                    },
                ),
            ),
        },
    }
}

pub open spec fn annotate_command(args: Map<Seq<char>, ContentView>) -> Result<
    CommandView,
    CommandErrorView,
> {
    match arg_of(args, "wasm-path"@).required() {
        Err(error) => no_answer(error),
        Ok(wasm_path) => match arg_of(args, "metadata-path"@).required() {
            Err(error) => no_answer(error),
            Ok(metadata_path) => match arg_of(args, "output-path"@).required() {
                Err(error) => no_answer(error),
                Ok(destination) => Ok(CommandView::Annotate { wasm_path, metadata_path, destination }),
            },
        },
    }
}

pub open spec fn inspect_command(args: Map<Seq<char>, ContentView>) -> Result<
    CommandView,
    CommandErrorView,
> {
    match arg_of(args, "uri"@).required() {
        Err(error) => no_answer(error),
        Ok(uri) => match arg_of(args, "output"@).one() {
            Err(error) => no_answer(error),
            Ok(output) => Ok(CommandView::Inspect(InspectArgsView { uri, output, remote: remote_args(args) })),
        },
    }
}

pub open spec fn manifest_command(args: Map<Seq<char>, ContentView>) -> Result<
    CommandView,
    CommandErrorView,
> {
    match arg_of(args, "uri"@).required() {
        Err(error) => no_answer(error),
        Ok(uri) => match arg_of(args, "type"@).required() {
            Err(error) => no_answer(error),
            Ok(resource_type) => Ok(
                CommandView::ScaffoldManifest(
                    ManifestArgsView {
                        uri,
                        resource_type,
                        settings_path: arg_of(args, "settings-path"@),
                        settings_json: arg_of(args, "settings-json"@),
                        title: arg_of(args, "title"@),
                    },
                ),
            ),
        },
    }
}

pub open spec fn completions_command(args: Map<Seq<char>, ContentView>) -> Result<
    CommandView,
    CommandErrorView,
> {
    match arg_of(args, "shell"@).required() {
        Err(error) => no_answer(error),
        Ok(shell) => Ok(CommandView::Completions { shell }),
    }
}

pub open spec fn digest_command(args: Map<Seq<char>, ContentView>) -> Result<
    CommandView,
    CommandErrorView,
> {
    match arg_of(args, "uri"@).required() {
        Err(error) => no_answer(error),
        Ok(uri) => Ok(CommandView::Digest(DigestArgsView { uri, remote: remote_args(args) })),
    }
}

impl InvocationView {
    /// The command that is asked for.
    pub open spec fn command(self) -> Result<CommandView, CommandErrorView> {
        let path = self.path;
        if path.len() == 0 {
            Err(CommandErrorView::NoSubcommand)
        } else if path == seq!["policies"@] {
            Ok(CommandView::Policies)
        } else if path == seq!["pull"@] {
            pull_command(self.args)
        } else if path == seq!["verify"@] {
            verify_command(self.args)
        } else if path == seq!["push"@] {
            Ok(push_command(self.args))
        } else if path == seq!["rm"@] {
            rm_command(self.args)
        } else if path == seq!["run"@] {
            run_command(self.args)
        } else if path == seq!["annotate"@] {
            annotate_command(self.args)
        } else if path == seq!["inspect"@] {
            inspect_command(self.args)
        } else if path == seq!["scaffold"@, "verification-config"@] {
            Ok(CommandView::ScaffoldVerificationConfig)
        } else if path == seq!["scaffold"@, "manifest"@] {
            manifest_command(self.args)
        } else if path[0] == "scaffold"@ {
            Ok(CommandView::ScaffoldNothing)
        } else if path == seq!["completions"@] {
            completions_command(self.args)
        } else if path == seq!["digest"@] {
            digest_command(self.args)
        } else {
            Err(CommandErrorView::Unknown(path[0]))
        }
    }
}

/// Whether a command or an error is the expected one.
pub open spec fn agrees(
    res: Result<Command, CommandError>,
    expected: Result<CommandView, CommandErrorView>,
) -> bool {
    match (res, expected) {
        (Ok(command), Ok(expected)) => command@ == expected,
        (Err(error), Err(expected)) => error@ == expected,
        _ => false,
    }
}

fn read_arg(args: &ArgTable, id: &str) -> (res: Arg)
    ensures
        res@ == arg_of(args@, id@),
{
    let content = match args.get(id) {
        Some(content) => content.duplicate(),
        None => Content::Unknown,
    };
    Arg { id: id.to_owned(), content }
}

fn read_remote(args: &ArgTable) -> (res: RemoteArgs)
    ensures
        res@ == remote_args(args@),
{
    RemoteArgs {
        sources_path: read_arg(args, "sources-path"),
        docker_config_json_path: read_arg(args, "docker-config-json-path"),
    }
}

fn read_verification(args: &ArgTable) -> (res: VerificationArgs)
    ensures
        res@ == verification_args(args@),
{
    VerificationArgs {
        verification_key: read_arg(args, "verification-key"),
        verification_annotation: read_arg(args, "verification-annotation"),
        cert_email: read_arg(args, "cert-email"),
        cert_oidc_issuer: read_arg(args, "cert-oidc-issuer"),
        github_owner: read_arg(args, "github-owner"),
        github_repo: read_arg(args, "github-repo"),
        verification_config_path: read_arg(args, "verification-config-path"),
    }
}

fn read_fulcio(args: &ArgTable) -> (res: FulcioArgs)
    ensures
        res@ == fulcio_args(args@),
{
    FulcioArgs {
        fulcio_cert_path: read_arg(args, "fulcio-cert-path"),
        rekor_public_key_path: read_arg(args, "rekor-public-key-path"),
    }
}

fn read_pull(args: &ArgTable) -> (res: Result<Command, CommandError>)
    ensures
        agrees(res, pull_command(args@)),
{
    let uri = match read_arg(args, "uri").required() {
        Ok(value) => value,
        Err(error) => return Err(CommandError::Argument(error)),
    };
    let output_path = match read_arg(args, "output-path").one() {
        Ok(value) => value,
        Err(error) => return Err(CommandError::Argument(error)),
    };
    Ok(
        Command::Pull(
            PullArgs {
                uri,
                output_path,
                remote: read_remote(args),
                verification: read_verification(args),
                fulcio: read_fulcio(args),
            },
        ),
    )
}

fn read_verify(args: &ArgTable) -> (res: Result<Command, CommandError>)
    ensures
        agrees(res, verify_command(args@)),
{
    let uri = match read_arg(args, "uri").required() {
        Ok(value) => value,
        Err(error) => return Err(CommandError::Argument(error)),
    };
    Ok(
        Command::Verify(
            VerifyArgs {
                uri,
                remote: read_remote(args),
                verification: read_verification(args),
                fulcio: read_fulcio(args),
            },
        ),
    )
}

fn read_push(args: &ArgTable) -> (res: Command)
    ensures
        res@ == push_command(args@),
{
    Command::Push(
        PushArgs {
            policy: read_arg(args, "policy"),
            uri: read_arg(args, "uri"),
            remote: read_remote(args),
            force: read_arg(args, "force"),
            output: read_arg(args, "output"),
        },
    )
}

fn read_rm(args: &ArgTable) -> (res: Result<Command, CommandError>)
    ensures
        agrees(res, rm_command(args@)),
{
    let uri = match read_arg(args, "uri").required() {
        Ok(value) => value,
        Err(error) => return Err(CommandError::Argument(error)),
    };
    Ok(Command::Rm { uri })
}

fn read_run(args: &ArgTable) -> (res: Result<Command, CommandError>)
    ensures
        agrees(res, run_command(args@)),
{
    let uri = match read_arg(args, "uri").required() {
        Ok(value) => value,
        Err(error) => return Err(CommandError::Argument(error)),
    };
    let request_path = match read_arg(args, "request-path").required() {
        Ok(value) => value,
        Err(error) => return Err(CommandError::Argument(error)),
    };
    Ok(
        Command::Run(
            RunArgs {
                uri,
                request_path,
                settings_path: read_arg(args, "settings-path"),
                settings_json: read_arg(args, "settings-json"),
                remote: read_remote(args),
                execution_mode: read_arg(args, "execution-mode"),
                verification: read_verification(args),
                fulcio: read_fulcio(args),
                disable_wasmtime_cache: read_arg(args, "disable-wasmtime-cache"),
            },
        ),
    )
}

fn read_annotate(args: &ArgTable) -> (res: Result<Command, CommandError>)
    ensures
        agrees(res, annotate_command(args@)),
{
    let wasm_path = match read_arg(args, "wasm-path").required() {
        Ok(value) => value,
        Err(error) => return Err(CommandError::Argument(error)),
    };
    let metadata_path = match read_arg(args, "metadata-path").required() {
        Ok(value) => value,
        Err(error) => return Err(CommandError::Argument(error)),
    };
    let destination = match read_arg(args, "output-path").required() {
        Ok(value) => value,
        Err(error) => return Err(CommandError::Argument(error)),
    };
    Ok(Command::Annotate { wasm_path, metadata_path, destination })
}

fn read_inspect(args: &ArgTable) -> (res: Result<Command, CommandError>)
    ensures
        agrees(res, inspect_command(args@)),
{
    let uri = match read_arg(args, "uri").required() {
        Ok(value) => value,
        Err(error) => return Err(CommandError::Argument(error)),
    };
    let output = match read_arg(args, "output").one() {
        Ok(value) => value,
        Err(error) => return Err(CommandError::Argument(error)),
    };
    Ok(Command::Inspect(InspectArgs { uri, output, remote: read_remote(args) }))
}

fn read_manifest(args: &ArgTable) -> (res: Result<Command, CommandError>)
    ensures
        agrees(res, manifest_command(args@)),
{
    let uri = match read_arg(args, "uri").required() {
        Ok(value) => value,
        Err(error) => return Err(CommandError::Argument(error)),
    };
    let resource_type = match read_arg(args, "type").required() {
        Ok(value) => value,
        Err(error) => return Err(CommandError::Argument(error)),
    };
    Ok(
        Command::ScaffoldManifest(
            ManifestArgs {
                uri,
                resource_type,
                settings_path: read_arg(args, "settings-path"),
                settings_json: read_arg(args, "settings-json"),
                title: read_arg(args, "title"),
            },
        ),
    )
}

fn read_completions(args: &ArgTable) -> (res: Result<Command, CommandError>)
    ensures
        agrees(res, completions_command(args@)),
{
    let shell = match read_arg(args, "shell").required() {
        Ok(value) => value,
        Err(error) => return Err(CommandError::Argument(error)),
    };
    Ok(Command::Completions { shell })
}

fn read_digest(args: &ArgTable) -> (res: Result<Command, CommandError>)
    ensures
        agrees(res, digest_command(args@)),
{
    let uri = match read_arg(args, "uri").required() {
        Ok(value) => value,
        Err(error) => return Err(CommandError::Argument(error)),
    };
    Ok(Command::Digest(DigestArgs { uri, remote: read_remote(args) }))
}

/// The command that an invocation asks for.
pub fn command(invocation: &Invocation) -> (res: Result<Command, CommandError>)
    ensures
        agrees(res, invocation@.command()),
{
    let path = &invocation.path;
    let args = &invocation.args;
    if path.len() == 0 {
        Err(CommandError::NoSubcommand)
    } else if is_command(path, "policies") {
        Ok(Command::Policies)
    } else if is_command(path, "pull") {
        read_pull(args)
    } else if is_command(path, "verify") {
        read_verify(args)
    } else if is_command(path, "push") {
        Ok(read_push(args))
    } else if is_command(path, "rm") {
        read_rm(args)
    } else if is_command(path, "run") {
        read_run(args)
    } else if is_command(path, "annotate") {
        read_annotate(args)
    } else if is_command(path, "inspect") {
        read_inspect(args)
    } else if is_subcommand(path, "scaffold", "verification-config") {
        Ok(Command::ScaffoldVerificationConfig)
    } else if is_subcommand(path, "scaffold", "manifest") {
        read_manifest(args)
    } else if same(path[0].as_str(), "scaffold") {
        Ok(Command::ScaffoldNothing)
    } else if is_command(path, "completions") {
        read_completions(args)
    } else if is_command(path, "digest") {
        read_digest(args)
    } else {
        Err(CommandError::Unknown(path[0].clone()))
    }
}

proof fn lemma_names_differ()
    ensures
        "policies"@ != "pull"@,
        "policies"@ != "verify"@,
        "policies"@ != "push"@,
        "policies"@ != "rm"@,
        "policies"@ != "run"@,
        "policies"@ != "annotate"@,
        "policies"@ != "inspect"@,
        "policies"@ != "scaffold"@,
        "policies"@ != "completions"@,
        "policies"@ != "digest"@,
        "pull"@ != "verify"@,
        "pull"@ != "push"@,
        "pull"@ != "rm"@,
        "pull"@ != "run"@,
        "pull"@ != "annotate"@,
        "pull"@ != "inspect"@,
        "pull"@ != "scaffold"@,
        "pull"@ != "completions"@,
        "pull"@ != "digest"@,
        "verify"@ != "push"@,
        "verify"@ != "rm"@,
        "verify"@ != "run"@,
        "verify"@ != "annotate"@,
        "verify"@ != "inspect"@,
        "verify"@ != "scaffold"@,
        "verify"@ != "completions"@,
        "verify"@ != "digest"@,
        "push"@ != "rm"@,
        "push"@ != "run"@,
        "push"@ != "annotate"@,
        "push"@ != "inspect"@,
        "push"@ != "scaffold"@,
        "push"@ != "completions"@,
        "push"@ != "digest"@,
        "rm"@ != "run"@,
        "rm"@ != "annotate"@,
        "rm"@ != "inspect"@,
        "rm"@ != "scaffold"@,
        "rm"@ != "completions"@,
        "rm"@ != "digest"@,
        "run"@ != "annotate"@,
        "run"@ != "inspect"@,
        "run"@ != "scaffold"@,
        "run"@ != "completions"@,
        "run"@ != "digest"@,
        "annotate"@ != "inspect"@,
        "annotate"@ != "scaffold"@,
        "annotate"@ != "completions"@,
        "annotate"@ != "digest"@,
        "inspect"@ != "scaffold"@,
        "inspect"@ != "completions"@,
        "inspect"@ != "digest"@,
        "scaffold"@ != "completions"@,
        "scaffold"@ != "digest"@,
        "completions"@ != "digest"@,
        "verification-config"@ != "manifest"@,
{
    reveal_strlit("policies");
    reveal_strlit("pull");
    reveal_strlit("verify");
    reveal_strlit("push");
    reveal_strlit("rm");
    reveal_strlit("run");
    reveal_strlit("annotate");
    reveal_strlit("inspect");
    reveal_strlit("scaffold");
    reveal_strlit("completions");
    reveal_strlit("digest");
    reveal_strlit("verification-config");
    reveal_strlit("manifest");
    assert("policies"@.len() != "pull"@.len());
    assert("policies"@.len() != "verify"@.len());
    assert("policies"@.len() != "push"@.len());
    assert("policies"@.len() != "rm"@.len());
    assert("policies"@.len() != "run"@.len());
    assert("policies"@[0] != "annotate"@[0]);
    assert("policies"@.len() != "inspect"@.len());
    assert("policies"@[0] != "scaffold"@[0]);
    assert("policies"@.len() != "completions"@.len());
    assert("policies"@.len() != "digest"@.len());
    assert("pull"@.len() != "verify"@.len());
    assert("pull"@[2] != "push"@[2]);
    assert("pull"@.len() != "rm"@.len());
    assert("pull"@.len() != "run"@.len());
    assert("pull"@.len() != "annotate"@.len());
    assert("pull"@.len() != "inspect"@.len());
    assert("pull"@.len() != "scaffold"@.len());
    assert("pull"@.len() != "completions"@.len());
    assert("pull"@.len() != "digest"@.len());
    assert("verify"@.len() != "push"@.len());
    assert("verify"@.len() != "rm"@.len());
    assert("verify"@.len() != "run"@.len());
    assert("verify"@.len() != "annotate"@.len());
    assert("verify"@.len() != "inspect"@.len());
    assert("verify"@.len() != "scaffold"@.len());
    assert("verify"@.len() != "completions"@.len());
    assert("verify"@[0] != "digest"@[0]);
    assert("push"@.len() != "rm"@.len());
    assert("push"@.len() != "run"@.len());
    assert("push"@.len() != "annotate"@.len());
    assert("push"@.len() != "inspect"@.len());
    assert("push"@.len() != "scaffold"@.len());
    assert("push"@.len() != "completions"@.len());
    assert("push"@.len() != "digest"@.len());
    assert("rm"@.len() != "run"@.len());
    assert("rm"@.len() != "annotate"@.len());
    assert("rm"@.len() != "inspect"@.len());
    assert("rm"@.len() != "scaffold"@.len());
    assert("rm"@.len() != "completions"@.len());
    assert("rm"@.len() != "digest"@.len());
    assert("run"@.len() != "annotate"@.len());
    assert("run"@.len() != "inspect"@.len());
    assert("run"@.len() != "scaffold"@.len());
    assert("run"@.len() != "completions"@.len());
    assert("run"@.len() != "digest"@.len());
    assert("annotate"@.len() != "inspect"@.len());
    assert("annotate"@[0] != "scaffold"@[0]);
    assert("annotate"@.len() != "completions"@.len());
    assert("annotate"@.len() != "digest"@.len());
    assert("inspect"@.len() != "scaffold"@.len());
    assert("inspect"@.len() != "completions"@.len());
    assert("inspect"@.len() != "digest"@.len());
    assert("scaffold"@.len() != "completions"@.len());
    assert("scaffold"@.len() != "digest"@.len());
    assert("completions"@.len() != "digest"@.len());
    assert("verification-config"@.len() != "manifest"@.len());
}

proof fn lemma_other_paths(path: Seq<Seq<char>>)
    requires
        path.len() == 1,
    ensures
        path[0] != "policies"@ ==> path != seq!["policies"@],
        path[0] != "pull"@ ==> path != seq!["pull"@],
        path[0] != "verify"@ ==> path != seq!["verify"@],
        path[0] != "push"@ ==> path != seq!["push"@],
        path[0] != "rm"@ ==> path != seq!["rm"@],
        path[0] != "run"@ ==> path != seq!["run"@],
        path[0] != "annotate"@ ==> path != seq!["annotate"@],
        path[0] != "inspect"@ ==> path != seq!["inspect"@],
        path[0] != "completions"@ ==> path != seq!["completions"@],
        path[0] != "digest"@ ==> path != seq!["digest"@],
        path != seq!["scaffold"@, "manifest"@],
        path != seq!["scaffold"@, "verification-config"@],
{
    assert(seq!["policies"@][0] == "policies"@);
    assert(seq!["pull"@][0] == "pull"@);
    assert(seq!["verify"@][0] == "verify"@);
    assert(seq!["push"@][0] == "push"@);
    assert(seq!["rm"@][0] == "rm"@);
    assert(seq!["run"@][0] == "run"@);
    assert(seq!["annotate"@][0] == "annotate"@);
    assert(seq!["inspect"@][0] == "inspect"@);
    assert(seq!["completions"@][0] == "completions"@);
    assert(seq!["digest"@][0] == "digest"@);
    assert(seq!["scaffold"@, "manifest"@].len() == 2);
    assert(seq!["scaffold"@, "verification-config"@].len() == 2);
}

/// Whether each argument on remote servers is the one of its name, with what is known of it.
pub open spec fn shows_remote(
    known: Set<Seq<char>>,
    present: Map<Seq<char>, Option<Seq<Seq<char>>>>,
    shown: RemoteArgsView,
) -> bool {
    &&& args::shows(known, present, shown.sources_path, "sources-path"@)
    &&& args::shows(known, present, shown.docker_config_json_path, "docker-config-json-path"@)
}

/// Whether each argument on verification is the one of its name, with what is known of it.
pub open spec fn shows_verification(
    known: Set<Seq<char>>,
    present: Map<Seq<char>, Option<Seq<Seq<char>>>>,
    shown: VerificationArgsView,
) -> bool {
    &&& args::shows(known, present, shown.verification_key, "verification-key"@)
    &&& args::shows(known, present, shown.verification_annotation, "verification-annotation"@)
    &&& args::shows(known, present, shown.cert_email, "cert-email"@)
    &&& args::shows(known, present, shown.cert_oidc_issuer, "cert-oidc-issuer"@)
    &&& args::shows(known, present, shown.github_owner, "github-owner"@)
    &&& args::shows(known, present, shown.github_repo, "github-repo"@)
    &&& args::shows(known, present, shown.verification_config_path, "verification-config-path"@)
}

/// Whether each argument on Fulcio and Rekor is the one of its name, with what is known of it.
pub open spec fn shows_fulcio(
    known: Set<Seq<char>>,
    present: Map<Seq<char>, Option<Seq<Seq<char>>>>,
    shown: FulcioArgsView,
) -> bool {
    &&& args::shows(known, present, shown.fulcio_cert_path, "fulcio-cert-path"@)
    &&& args::shows(known, present, shown.rekor_public_key_path, "rekor-public-key-path"@)
}

/// What a parsed command line asks for.
pub open spec fn asked_for(
    names: Seq<Seq<char>>,
    known: Seq<Set<Seq<char>>>,
    present: Seq<Map<Seq<char>, Option<Seq<Seq<char>>>>>,
) -> Result<CommandView, CommandErrorView> {
    args::invocation_of(names, known, present)->Ok_0.command()
}

proof fn lemma_front(front: Seq<Seq<char>>, rest: Seq<Seq<char>>, id: Seq<char>)
    ensures
        front.contains(id) ==> (front + rest).contains(id),
        rest.contains(id) ==> (front + rest).contains(id),
{
    if front.contains(id) {
        let i = choose|i: int| 0 <= i < front.len() && front[i] == id;
        assert((front + rest)[i] == id);
    }
    if rest.contains(id) {
        let i = choose|i: int| 0 <= i < rest.len() && rest[i] == id;
        assert((front + rest)[front.len() + i] == id);
    }
}

proof fn lemma_remote_ids(front: Seq<Seq<char>>)
    ensures
        (front + args::remote_ids()).contains("sources-path"@),
        (front + args::remote_ids()).contains("docker-config-json-path"@),
        forall|id: Seq<char>|
            front.contains(id) ==> #[trigger] (front + args::remote_ids()).contains(id),
{
    let ids = args::remote_ids();
    assert(ids[0] == "sources-path"@);
    assert(ids[1] == "docker-config-json-path"@);
    lemma_front(front, ids, "sources-path"@);
    lemma_front(front, ids, "docker-config-json-path"@);
    assert forall|id: Seq<char>| front.contains(id) implies #[trigger] (front + ids).contains(
        id,
    ) by {
        lemma_front(front, ids, id);
    }
}

proof fn lemma_all_ids(front: Seq<Seq<char>>)
    ensures
        ({
            let ids = front + args::remote_ids() + args::verification_ids() + args::fulcio_ids();
            &&& ids.contains("sources-path"@)
            &&& ids.contains("docker-config-json-path"@)
            &&& ids.contains("verification-key"@)
            &&& ids.contains("verification-annotation"@)
            &&& ids.contains("cert-email"@)
            &&& ids.contains("cert-oidc-issuer"@)
            &&& ids.contains("github-owner"@)
            &&& ids.contains("github-repo"@)
            &&& ids.contains("verification-config-path"@)
            &&& ids.contains("fulcio-cert-path"@)
            &&& ids.contains("rekor-public-key-path"@)
            &&& forall|id: Seq<char>| front.contains(id) ==> #[trigger] ids.contains(id)
        }),
{
    let ids = front + args::remote_ids() + args::verification_ids() + args::fulcio_ids();
    let n = front.len() as int;
    assert(ids[n] == "sources-path"@);
    assert(ids[n + 1] == "docker-config-json-path"@);
    assert(ids[n + 2] == "verification-key"@);
    assert(ids[n + 3] == "verification-annotation"@);
    assert(ids[n + 4] == "cert-email"@);
    assert(ids[n + 5] == "cert-oidc-issuer"@);
    assert(ids[n + 6] == "github-owner"@);
    assert(ids[n + 7] == "github-repo"@);
    assert(ids[n + 8] == "verification-config-path"@);
    assert(ids[n + 9] == "fulcio-cert-path"@);
    assert(ids[n + 10] == "rekor-public-key-path"@);
    assert forall|id: Seq<char>| front.contains(id) implies #[trigger] ids.contains(id) by {
        let i = choose|i: int| 0 <= i < front.len() && front[i] == id;
        assert(ids[i] == id);
    }
}

/// A command line that asks for a pull is read as one, with the URI and the output path that it gives,
/// and with each other argument as it stands on the command line.
pub proof fn pull_is_read_as_it_stands(
    names: Seq<Seq<char>>,
    known: Seq<Set<Seq<char>>>,
    present: Seq<Map<Seq<char>, Option<Seq<Seq<char>>>>>,
    uri: Seq<char>,
    output_path: Option<Seq<char>>,
)
    requires
        known[0].contains("verbose"@),
        names.len() >= 1,
        names[0] == "pull"@,
        args::gives(known[1], present[1], "uri"@, Some(uri)),
        args::gives(known[1], present[1], "output-path"@, output_path),
    ensures
        asked_for(names, known, present) matches Ok(CommandView::Pull(args)) && args.uri == uri
            && args.output_path == output_path && shows_remote(known[1], present[1], args.remote)
            && shows_verification(known[1], present[1], args.verification) && shows_fulcio(
            known[1],
            present[1],
            args.fulcio,
        ),
{
    lemma_names_differ();
    let path = args::command_path(names);
    assert(path =~= seq!["pull"@]);
    lemma_other_paths(path);
    let front = seq!["uri"@, "output-path"@];
    assert(front[0] == "uri"@);
    assert(front[1] == "output-path"@);
    lemma_all_ids(front);
}

/// A command line that asks for a verification is read as one, with the URI that it gives, and with
/// each other argument as it stands on the command line.
pub proof fn verify_is_read_as_it_stands(
    names: Seq<Seq<char>>,
    known: Seq<Set<Seq<char>>>,
    present: Seq<Map<Seq<char>, Option<Seq<Seq<char>>>>>,
    uri: Seq<char>,
)
    requires
        known[0].contains("verbose"@),
        names.len() >= 1,
        names[0] == "verify"@,
        args::gives(known[1], present[1], "uri"@, Some(uri)),
    ensures
        asked_for(names, known, present) matches Ok(CommandView::Verify(args)) && args.uri == uri
            && shows_remote(known[1], present[1], args.remote) && shows_verification(
            known[1],
            present[1],
            args.verification,
        ) && shows_fulcio(known[1], present[1], args.fulcio),
{
    lemma_names_differ();
    let path = args::command_path(names);
    assert(path =~= seq!["verify"@]);
    lemma_other_paths(path);
    let front = seq!["uri"@];
    assert(front[0] == "uri"@);
    lemma_all_ids(front);
}

/// A command line that asks for a push is read as one, with each argument as it stands on the command
/// line.
pub proof fn push_is_read_as_it_stands(
    names: Seq<Seq<char>>,
    known: Seq<Set<Seq<char>>>,
    present: Seq<Map<Seq<char>, Option<Seq<Seq<char>>>>>,
)
    requires
        known[0].contains("verbose"@),
        names.len() >= 1,
        names[0] == "push"@,
    ensures
        asked_for(names, known, present) matches Ok(CommandView::Push(args)) && args::shows(
            known[1],
            present[1],
            args.policy,
            "policy"@,
        ) && args::shows(known[1], present[1], args.uri, "uri"@) && args::shows(
            known[1],
            present[1],
            args.force,
            "force"@,
        ) && args::shows(known[1], present[1], args.output, "output"@) && shows_remote(
            known[1],
            present[1],
            args.remote,
        ),
{
    lemma_names_differ();
    let path = args::command_path(names);
    assert(path =~= seq!["push"@]);
    lemma_other_paths(path);
    let front = seq!["policy"@, "uri"@, "force"@, "output"@];
    assert(front[0] == "policy"@);
    assert(front[1] == "uri"@);
    assert(front[2] == "force"@);
    assert(front[3] == "output"@);
    lemma_remote_ids(front);
}

/// A command line that asks to remove a policy is read as such, with the URI that it gives.
pub proof fn rm_is_read_as_it_stands(
    names: Seq<Seq<char>>,
    known: Seq<Set<Seq<char>>>,
    present: Seq<Map<Seq<char>, Option<Seq<Seq<char>>>>>,
    uri: Seq<char>,
)
    requires
        known[0].contains("verbose"@),
        names.len() >= 1,
        names[0] == "rm"@,
        args::gives(known[1], present[1], "uri"@, Some(uri)),
    ensures
        asked_for(names, known, present) == Ok::<CommandView, CommandErrorView>(
            CommandView::Rm { uri },
        ),
{
    lemma_names_differ();
    let path = args::command_path(names);
    assert(path =~= seq!["rm"@]);
    lemma_other_paths(path);
    let front = seq!["uri"@];
    assert(front[0] == "uri"@);
}

/// A command line that asks for a run is read as one, with the URI and the request that it gives, and
/// with each other argument as it stands on the command line.
pub proof fn run_is_read_as_it_stands(
    names: Seq<Seq<char>>,
    known: Seq<Set<Seq<char>>>,
    present: Seq<Map<Seq<char>, Option<Seq<Seq<char>>>>>,
    uri: Seq<char>,
    request_path: Seq<char>,
)
    requires
        known[0].contains("verbose"@),
        names.len() >= 1,
        names[0] == "run"@,
        args::gives(known[1], present[1], "uri"@, Some(uri)),
        args::gives(known[1], present[1], "request-path"@, Some(request_path)),
    ensures
        asked_for(names, known, present) matches Ok(CommandView::Run(args)) && args.uri == uri
            && args.request_path == request_path && args::shows(
            known[1],
            present[1],
            args.settings_path,
            "settings-path"@,
        ) && args::shows(known[1], present[1], args.settings_json, "settings-json"@) && args::shows(
            known[1],
            present[1],
            args.execution_mode,
            "execution-mode"@,
        ) && args::shows(
            known[1],
            present[1],
            args.disable_wasmtime_cache,
            "disable-wasmtime-cache"@,
        ) && shows_remote(known[1], present[1], args.remote) && shows_verification(
            known[1],
            present[1],
            args.verification,
        ) && shows_fulcio(known[1], present[1], args.fulcio),
{
    lemma_names_differ();
    let path = args::command_path(names);
    assert(path =~= seq!["run"@]);
    lemma_other_paths(path);
    let front = seq!["uri"@, "request-path"@, "settings-path"@, "settings-json"@, "execution-mode"@, "disable-wasmtime-cache"@];
    assert(front[0] == "uri"@);
    assert(front[1] == "request-path"@);
    assert(front[2] == "settings-path"@);
    assert(front[3] == "settings-json"@);
    assert(front[4] == "execution-mode"@);
    assert(front[5] == "disable-wasmtime-cache"@);
    lemma_all_ids(front);
}

/// A command line that asks for an annotation is read as one, with the paths that it gives.
pub proof fn annotate_is_read_as_it_stands(
    names: Seq<Seq<char>>,
    known: Seq<Set<Seq<char>>>,
    present: Seq<Map<Seq<char>, Option<Seq<Seq<char>>>>>,
    wasm_path: Seq<char>,
    metadata_path: Seq<char>,
    destination: Seq<char>,
)
    requires
        known[0].contains("verbose"@),
        names.len() >= 1,
        names[0] == "annotate"@,
        args::gives(known[1], present[1], "wasm-path"@, Some(wasm_path)),
        args::gives(known[1], present[1], "metadata-path"@, Some(metadata_path)),
        args::gives(known[1], present[1], "output-path"@, Some(destination)),
    ensures
        asked_for(names, known, present) == Ok::<CommandView, CommandErrorView>(
            CommandView::Annotate { wasm_path, metadata_path, destination },
        ),
{
    lemma_names_differ();
    let path = args::command_path(names);
    assert(path =~= seq!["annotate"@]);
    lemma_other_paths(path);
    let front = seq!["wasm-path"@, "metadata-path"@, "output-path"@];
    assert(front[0] == "wasm-path"@);
    assert(front[1] == "metadata-path"@);
    assert(front[2] == "output-path"@);
}

/// A command line that asks for an inspection is read as one, with the URI and the output that it
/// gives, and with each other argument as it stands on the command line.
pub proof fn inspect_is_read_as_it_stands(
    names: Seq<Seq<char>>,
    known: Seq<Set<Seq<char>>>,
    present: Seq<Map<Seq<char>, Option<Seq<Seq<char>>>>>,
    uri: Seq<char>,
    output: Option<Seq<char>>,
)
    requires
        known[0].contains("verbose"@),
        names.len() >= 1,
        names[0] == "inspect"@,
        args::gives(known[1], present[1], "uri"@, Some(uri)),
        args::gives(known[1], present[1], "output"@, output),
    ensures
        asked_for(names, known, present) matches Ok(CommandView::Inspect(args)) && args.uri == uri
            && args.output == output && shows_remote(known[1], present[1], args.remote),
{
    lemma_names_differ();
    let path = args::command_path(names);
    assert(path =~= seq!["inspect"@]);
    lemma_other_paths(path);
    let front = seq!["uri"@, "output"@];
    assert(front[0] == "uri"@);
    assert(front[1] == "output"@);
    lemma_remote_ids(front);
}

/// A command line that asks for a manifest is read as one, with the URI and the resource type that it
/// gives, and with each other argument as it stands on the command line.
pub proof fn manifest_is_read_as_it_stands(
    names: Seq<Seq<char>>,
    known: Seq<Set<Seq<char>>>,
    present: Seq<Map<Seq<char>, Option<Seq<Seq<char>>>>>,
    uri: Seq<char>,
    resource_type: Seq<char>,
)
    requires
        known[0].contains("verbose"@),
        names.len() >= 2,
        names[0] == "scaffold"@,
        names[1] == "manifest"@,
        args::gives(known[2], present[2], "uri"@, Some(uri)),
        args::gives(known[2], present[2], "type"@, Some(resource_type)),
    ensures
        asked_for(names, known, present) matches Ok(CommandView::ScaffoldManifest(args)) && args.uri
            == uri && args.resource_type == resource_type && args::shows(
            known[2],
            present[2],
            args.settings_path,
            "settings-path"@,
        ) && args::shows(known[2], present[2], args.settings_json, "settings-json"@) && args::shows(
            known[2],
            present[2],
            args.title,
            "title"@,
        ),
{
    lemma_names_differ();
    let path = args::command_path(names);
    assert(path =~= seq!["scaffold"@, "manifest"@]);
    assert(path[0] == "scaffold"@);
    let front = seq!["uri"@, "type"@, "settings-path"@, "settings-json"@, "title"@];
    assert(front[0] == "uri"@);
    assert(front[1] == "type"@);
    assert(front[2] == "settings-path"@);
    assert(front[3] == "settings-json"@);
    assert(front[4] == "title"@);
    assert(path[1] == "manifest"@);
}

/// A command line that asks for completions is read as such, with the shell that it gives.
pub proof fn completions_are_read_as_they_stand(
    names: Seq<Seq<char>>,
    known: Seq<Set<Seq<char>>>,
    present: Seq<Map<Seq<char>, Option<Seq<Seq<char>>>>>,
    shell: Seq<char>,
)
    requires
        known[0].contains("verbose"@),
        names.len() >= 1,
        names[0] == "completions"@,
        args::gives(known[1], present[1], "shell"@, Some(shell)),
    ensures
        asked_for(names, known, present) == Ok::<CommandView, CommandErrorView>(
            CommandView::Completions { shell },
        ),
{
    lemma_names_differ();
    let path = args::command_path(names);
    assert(path =~= seq!["completions"@]);
    lemma_other_paths(path);
    let front = seq!["shell"@];
    assert(front[0] == "shell"@);
}

/// A command line that asks for a digest is read as such, with the URI that it gives, and with each
/// other argument as it stands on the command line.
pub proof fn digest_is_read_as_it_stands(
    names: Seq<Seq<char>>,
    known: Seq<Set<Seq<char>>>,
    present: Seq<Map<Seq<char>, Option<Seq<Seq<char>>>>>,
    uri: Seq<char>,
)
    requires
        known[0].contains("verbose"@),
        names.len() >= 1,
        names[0] == "digest"@,
        args::gives(known[1], present[1], "uri"@, Some(uri)),
    ensures
        asked_for(names, known, present) matches Ok(CommandView::Digest(args)) && args.uri == uri
            && shows_remote(known[1], present[1], args.remote),
{
    lemma_names_differ();
    let path = args::command_path(names);
    assert(path =~= seq!["digest"@]);
    lemma_other_paths(path);
    let front = seq!["uri"@];
    assert(front[0] == "uri"@);
    lemma_remote_ids(front);
}

/// A command line that asks for the policies is read as such.
pub proof fn policies_are_asked_for(
    names: Seq<Seq<char>>,
    known: Seq<Set<Seq<char>>>,
    present: Seq<Map<Seq<char>, Option<Seq<Seq<char>>>>>,
)
    requires
        known[0].contains("verbose"@),
        names.len() >= 1,
        names[0] == "policies"@,
    ensures
        asked_for(names, known, present) == Ok::<CommandView, CommandErrorView>(
            CommandView::Policies,
        ),
{
    lemma_names_differ();
    let path = args::command_path(names);
    assert(path =~= seq!["policies"@]);
    lemma_other_paths(path);
}

/// A command line that asks for a verification configuration is read as such.
pub proof fn verification_config_is_asked_for(
    names: Seq<Seq<char>>,
    known: Seq<Set<Seq<char>>>,
    present: Seq<Map<Seq<char>, Option<Seq<Seq<char>>>>>,
)
    requires
        known[0].contains("verbose"@),
        names.len() >= 2,
        names[0] == "scaffold"@,
        names[1] == "verification-config"@,
    ensures
        asked_for(names, known, present) == Ok::<CommandView, CommandErrorView>(
            CommandView::ScaffoldVerificationConfig,
        ),
{
    lemma_names_differ();
    let path = args::command_path(names);
    assert(path =~= seq!["scaffold"@, "verification-config"@]);
    assert(path[0] == "scaffold"@);
    assert(path[1] == "verification-config"@);
}

/// A scaffold of neither a manifest nor a verification configuration is one of nothing.
pub proof fn other_scaffolds_are_of_nothing(
    names: Seq<Seq<char>>,
    known: Seq<Set<Seq<char>>>,
    present: Seq<Map<Seq<char>, Option<Seq<Seq<char>>>>>,
)
    requires
        known[0].contains("verbose"@),
        names.len() > 0,
        names[0] == "scaffold"@,
        names.len() > 1 ==> names[1] != "manifest"@ && names[1] != "verification-config"@,
    ensures
        asked_for(names, known, present) == Ok::<CommandView, CommandErrorView>(
            CommandView::ScaffoldNothing,
        ),
{
    lemma_names_differ();
    let path = args::command_path(names);
    assert(path[0] == "scaffold"@);
    if names.len() > 1 {
        assert(path[1] == names[1]);
        assert(seq!["scaffold"@, "manifest"@][1] == "manifest"@);
        assert(seq!["scaffold"@, "verification-config"@][1] == "verification-config"@);
    } else {
        assert(path.len() == 1);
        assert(seq!["scaffold"@, "manifest"@].len() == 2);
        assert(seq!["scaffold"@, "verification-config"@].len() == 2);
    }
    assert(seq!["policies"@][0] == "policies"@);
    assert(seq!["pull"@][0] == "pull"@);
    assert(seq!["verify"@][0] == "verify"@);
    assert(seq!["push"@][0] == "push"@);
    assert(seq!["rm"@][0] == "rm"@);
    assert(seq!["run"@][0] == "run"@);
    assert(seq!["annotate"@][0] == "annotate"@);
    assert(seq!["inspect"@][0] == "inspect"@);
    assert(seq!["completions"@][0] == "completions"@);
    assert(seq!["digest"@][0] == "digest"@);
}

/// A subcommand of another name is unknown, and is told by its name; without a subcommand there is
/// nothing to do.
pub proof fn other_subcommands_are_unknown(
    names: Seq<Seq<char>>,
    known: Seq<Set<Seq<char>>>,
    present: Seq<Map<Seq<char>, Option<Seq<Seq<char>>>>>,
    name: String,
)
    requires
        known[0].contains("verbose"@),
    ensures
        names.len() == 0 ==> asked_for(names, known, present) == Err::<
            CommandView,
            CommandErrorView,
        >(CommandErrorView::NoSubcommand),
        names.len() > 0 && !(seq!["policies"@, "pull"@, "verify"@, "push"@, "rm"@, "run"@, "annotate"@, "inspect"@, "scaffold"@, "completions"@, "digest"@]).contains(
            names[0],
        ) ==> asked_for(names, known, present) == Err::<CommandView, CommandErrorView>(
            CommandErrorView::Unknown(names[0]),
        ),
        CommandError::Unknown(name).text() == "unknown subcommand: "@ + name@,
{
    let all = seq!["policies"@, "pull"@, "verify"@, "push"@, "rm"@, "run"@, "annotate"@, "inspect"@, "scaffold"@, "completions"@, "digest"@];
    assert(all[0] == "policies"@);
    assert(seq!["policies"@][0] == "policies"@);
    assert(all[1] == "pull"@);
    assert(seq!["pull"@][0] == "pull"@);
    assert(all[2] == "verify"@);
    assert(seq!["verify"@][0] == "verify"@);
    assert(all[3] == "push"@);
    assert(seq!["push"@][0] == "push"@);
    assert(all[4] == "rm"@);
    assert(seq!["rm"@][0] == "rm"@);
    assert(all[5] == "run"@);
    assert(seq!["run"@][0] == "run"@);
    assert(all[6] == "annotate"@);
    assert(seq!["annotate"@][0] == "annotate"@);
    assert(all[7] == "inspect"@);
    assert(seq!["inspect"@][0] == "inspect"@);
    assert(all[8] == "scaffold"@);
    assert(seq!["scaffold"@][0] == "scaffold"@);
    assert(all[9] == "completions"@);
    assert(seq!["completions"@][0] == "completions"@);
    assert(all[10] == "digest"@);
    assert(seq!["digest"@][0] == "digest"@);
    assert(seq!["scaffold"@, "manifest"@][0] == "scaffold"@);
    assert(seq!["scaffold"@, "verification-config"@][0] == "scaffold"@);
}

/// A command shows its own parts, and so does an error.
pub proof fn commands_show_their_parts(
    pull: PullArgs,
    verify: VerifyArgs,
    push: PushArgs,
    run: RunArgs,
    inspect: InspectArgs,
    manifest: ManifestArgs,
    digest: DigestArgs,
    one: String,
    two: String,
    three: String,
    error: ArgError,
)
    ensures
        Command::Policies@ == CommandView::Policies,
        Command::Pull(pull)@ == CommandView::Pull(pull@),
        Command::Verify(verify)@ == CommandView::Verify(verify@),
        Command::Push(push)@ == CommandView::Push(push@),
        (Command::Rm { uri: one })@ == (CommandView::Rm { uri: one@ }),
        Command::Run(run)@ == CommandView::Run(run@),
        (Command::Annotate { wasm_path: one, metadata_path: two, destination: three })@ == (
        CommandView::Annotate { wasm_path: one@, metadata_path: two@, destination: three@ }),
        Command::Inspect(inspect)@ == CommandView::Inspect(inspect@),
        Command::ScaffoldVerificationConfig@ == CommandView::ScaffoldVerificationConfig,
        Command::ScaffoldManifest(manifest)@ == CommandView::ScaffoldManifest(manifest@),
        Command::ScaffoldNothing@ == CommandView::ScaffoldNothing,
        (Command::Completions { shell: one })@ == (CommandView::Completions { shell: one@ }),
        Command::Digest(digest)@ == CommandView::Digest(digest@),
        CommandError::NoSubcommand@ == CommandErrorView::NoSubcommand,
        CommandError::Unknown(one)@ == CommandErrorView::Unknown(one@),
        CommandError::Argument(error)@ == CommandErrorView::Argument(error@),
{
}

/// The arguments of a command show their own parts, each in its place.
pub proof fn command_arguments_show_their_parts(
    pull: PullArgs,
    verify: VerifyArgs,
    push: PushArgs,
    run: RunArgs,
    inspect: InspectArgs,
    manifest: ManifestArgs,
    digest: DigestArgs,
)
    ensures
        pull@ == (PullArgsView {
            uri: pull.uri@,
            output_path: pull.output_path.deep_view(),
            remote: pull.remote@,
            verification: pull.verification@,
            fulcio: pull.fulcio@,
        }),
        verify@ == (VerifyArgsView {
            uri: verify.uri@,
            remote: verify.remote@,
            verification: verify.verification@,
            fulcio: verify.fulcio@,
        }),
        push@ == (PushArgsView {
            policy: push.policy@,
            uri: push.uri@,
            remote: push.remote@,
            force: push.force@,
            output: push.output@,
        }),
        run@ == (RunArgsView {
            uri: run.uri@,
            request_path: run.request_path@,
            settings_path: run.settings_path@,
            settings_json: run.settings_json@,
            remote: run.remote@,
            execution_mode: run.execution_mode@,
            verification: run.verification@,
            fulcio: run.fulcio@,
            disable_wasmtime_cache: run.disable_wasmtime_cache@,
        }),
        inspect@ == (InspectArgsView {
            uri: inspect.uri@,
            output: inspect.output.deep_view(),
            remote: inspect.remote@,
        }),
        manifest@ == (ManifestArgsView {
            uri: manifest.uri@,
            resource_type: manifest.resource_type@,
            settings_path: manifest.settings_path@,
            settings_json: manifest.settings_json@,
            title: manifest.title@,
        }),
        digest@ == (DigestArgsView { uri: digest.uri@, remote: digest.remote@ }),
{
}

} // verus!
