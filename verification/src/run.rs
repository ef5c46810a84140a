//! Running a policy against a request.

use crate::arg::{Arg, ArgError, ArgView, Content};
use crate::failure;
use crate::failure::Failure;
use crate::fulcio::{FulcioAndRekorData, FulcioArgs, FulcioArgsView};
use crate::remote::{RemoteArgs, RemoteArgsView, RemoteOptions};
use crate::settings;
use crate::settings::SettingsChoice;
use crate::signature::VerificationConfig;
use crate::verification::{VerificationArgs, VerificationArgsView};
use vstd::prelude::*;

verus! {

/// What the command line says on a run.
pub struct RunArgs {
    pub uri: String,
    /// The file with the request, or `-` for the standard input.
    pub request_path: String,
    pub settings_path: Arg,
    pub settings_json: Arg,
    pub remote: RemoteArgs,
    pub execution_mode: Arg,
    pub verification: VerificationArgs,
    pub fulcio: FulcioArgs,
    pub disable_wasmtime_cache: Arg,
}

pub struct RunArgsView {
    pub uri: Seq<char>,
    pub request_path: Seq<char>,
    pub settings_path: ArgView,
    pub settings_json: ArgView,
    pub remote: RemoteArgsView,
    pub execution_mode: ArgView,
    pub verification: VerificationArgsView,
    pub fulcio: FulcioArgsView,
    pub disable_wasmtime_cache: ArgView,
}

impl View for RunArgs {
    type V = RunArgsView;

    open spec fn view(&self) -> RunArgsView {
        RunArgsView {
            uri: self.uri@,
            request_path: self.request_path@,
            settings_path: self.settings_path@,
            settings_json: self.settings_json@,
            remote: self.remote@,
            execution_mode: self.execution_mode@,
            verification: self.verification@,
            fulcio: self.fulcio@,
            disable_wasmtime_cache: self.disable_wasmtime_cache@,
        }
    }
}

/// What a policy is run with. `M` is an execution mode.
pub struct RunInput<S, D, M> {
    pub request: String,
    pub settings: Option<String>,
    pub remote: RemoteOptions<S, D>,
    pub execution_mode: Option<M>,
}

/// How far a run is.
#[allow(inconsistent_fields)]
pub enum RunStage<S, D, R, M> {
    /// The request is to be read.
    Request,
    /// The settings are to be read.
    Settings { request: String, path: String },
    /// The options of remote servers are to be had.
    Remote { request: String, settings: Option<String> },
    /// The execution mode is to be found by its name.
    Mode {
        request: String,
        settings: Option<String>,
        remote: RemoteOptions<S, D>,
        name: String,
    },
    /// The verification options are to be had.
    Options { input: RunInput<S, D, M> },
    /// The data for verifications is to be had.
    Fulcio { input: RunInput<S, D, M>, options: Option<VerificationConfig> },
    /// The policy is to be verified in its registry.
    Verify {
        input: RunInput<S, D, M>,
        options: VerificationConfig,
        fulcio: Option<FulcioAndRekorData<R>>,
    },
    /// The policy is to be pulled and run. With a verification, its digest is known.
    PullAndRun {
        input: RunInput<S, D, M>,
        digest: Option<String>,
        fulcio: Option<FulcioAndRekorData<R>>,
        enable_wasmtime_cache: bool,
    },
    Done,
    Failed { failure: Failure },
}

/// A run under way.
pub struct RunSession<S, D, R, M> {
    pub args: RunArgs,
    pub stage: RunStage<S, D, R, M>,
}

/// What is to be done next.
pub enum RunAction<'a, S, D, R, M> {
    ReadRequestFromStdin,
    ReadRequestFile(&'a String),
    ReadSettings(&'a String),
    RemoteOptions(&'a RemoteArgs),
    ExecutionMode(&'a String),
    VerificationOptions(&'a VerificationArgs),
    FulcioAndRekorData(&'a FulcioArgs),
    Verify {
        uri: &'a String,
        remote: &'a RemoteOptions<S, D>,
        options: &'a VerificationConfig,
        fulcio: &'a Option<FulcioAndRekorData<R>>,
    },
    PullAndRun {
        uri: &'a String,
        input: &'a RunInput<S, D, M>,
        digest: &'a Option<String>,
        fulcio: &'a Option<FulcioAndRekorData<R>>,
        enable_wasmtime_cache: bool,
    },
}

/// What came of an action. An error is the text of its cause.
pub enum RunEvent<S, D, R, M> {
    RequestRead(Result<String, String>),
    SettingsRead(Result<String, String>),
    RemoteOptions(Result<RemoteOptions<S, D>, String>),
    ExecutionMode(Result<M, String>),
    VerificationOptions(Result<Option<VerificationConfig>, String>),
    FulcioAndRekorData(Result<Option<FulcioAndRekorData<R>>, String>),
    Verified(Result<String, String>),
    PulledAndRun(Result<(), String>),
}

impl RunArgs {
    /// Whether the request comes from the standard input.
    pub open spec fn reads_stdin(self) -> bool {
        self.request_path@ == "-"@
    }

    fn from_stdin(&self) -> (res: bool)
        ensures
            res == self.reads_stdin(),
    {
        self.request_path == "-".to_owned()
    }

    /// Where the settings come from.
    pub open spec fn choice(self) -> Result<SettingsChoice, ArgError> {
        settings::choice_of(self.settings_path, self.settings_json)
    }

    /// Why there is no request.
    pub open spec fn request_failure(self, cause: String) -> Failure {
        if self.reads_stdin() {
            Failure::RequestFromStdin { cause }
        } else {
            Failure::RequestFile { path: self.request_path, cause }
        }
    }
}

impl<S, D, R, M> RunStage<S, D, R, M> {
    /// The end of a run that something outside has stopped.
    pub open spec fn stopped(cause: String) -> Self {
        RunStage::Failed { failure: Failure::Outside(cause) }
    }

    /// The end of a run that an argument has stopped.
    pub open spec fn no_answer(error: ArgError) -> Self {
        RunStage::Failed { failure: Failure::Argument(error) }
    }

    /// The stage in which the request is there. Only here it counts where the settings come from.
    pub open spec fn with_request(args: RunArgs, request: String) -> Self {
        match args.choice() {
            Err(error) => Self::no_answer(error),
            Ok(SettingsChoice::Conflict) => RunStage::Failed {
                failure: Failure::ConflictingSettings,
            },
            Ok(SettingsChoice::File(path)) => RunStage::Settings { request, path },
            Ok(SettingsChoice::Inline(text)) => RunStage::Remote { request, settings: Some(text) },
            Ok(SettingsChoice::Absent) => RunStage::Remote { request, settings: None },
        }
    }

    /// The stage in which all is there that a policy is run with. Only here it counts whether the
    /// cache is to be used.
    pub open spec fn with_all(
        args: RunArgs,
        input: RunInput<S, D, M>,
        digest: Option<String>,
        fulcio: Option<FulcioAndRekorData<R>>,
    ) -> Self {
        match args.disable_wasmtime_cache.presence() {
            Ok(disabled) => RunStage::PullAndRun {
                input,
                digest,
                fulcio,
                enable_wasmtime_cache: !disabled,
            },
            Err(error) => Self::no_answer(error),
        }
    }

    /// The stage in which the options of remote servers are there. Only here it counts which
    /// execution mode is named.
    pub open spec fn with_remote(
        args: RunArgs,
        request: String,
        settings: Option<String>,
        remote: RemoteOptions<S, D>,
    ) -> Self {
        match args.execution_mode.first() {
            Ok(Some(name)) => RunStage::Mode { request, settings, remote, name },
            Ok(None) => RunStage::Options {
                input: RunInput { request, settings, remote, execution_mode: None },
            },
            Err(error) => Self::no_answer(error),
        }
    }

    /// The stage behind `event`, in a run with these arguments.
    pub open spec fn next(self, args: RunArgs, event: RunEvent<S, D, R, M>) -> Self {
        match (self, event) {
            (RunStage::Request, RunEvent::RequestRead(Ok(request))) => Self::with_request(
                args,
                request,
            ),
            (RunStage::Request, RunEvent::RequestRead(Err(cause))) => RunStage::Failed {
                failure: args.request_failure(cause),
            },
            (
                RunStage::Settings { request, .. },
                RunEvent::SettingsRead(Ok(settings)),
            ) => RunStage::Remote { request, settings: Some(settings) },
            (
                RunStage::Settings { path, .. },
                RunEvent::SettingsRead(Err(cause)),
            ) => RunStage::Failed { failure: Failure::SettingsFile { path, cause } },
            (
                RunStage::Remote { request, settings },
                RunEvent::RemoteOptions(Ok(remote)),
            ) => Self::with_remote(args, request, settings, remote),
            (RunStage::Remote { .. }, RunEvent::RemoteOptions(Err(cause))) => RunStage::Failed {
                failure: Failure::RemoteOptions { cause },
            },
            (
                RunStage::Mode { request, settings, remote, .. },
                RunEvent::ExecutionMode(Ok(mode)),
            ) => RunStage::Options {
                input: RunInput { request, settings, remote, execution_mode: Some(mode) },
            },
            (
                RunStage::Options { input },
                RunEvent::VerificationOptions(Ok(options)),
            ) => RunStage::Fulcio { input, options },
            (
                RunStage::Fulcio { input, options: Some(options) },
                RunEvent::FulcioAndRekorData(Ok(fulcio)),
            ) => RunStage::Verify { input, options, fulcio },
            (
                RunStage::Fulcio { input, options: None },
                RunEvent::FulcioAndRekorData(Ok(fulcio)),
            ) => Self::with_all(args, input, None, fulcio),
            (
                RunStage::Verify { input, fulcio, .. },
                RunEvent::Verified(Ok(digest)),
            ) => Self::with_all(args, input, Some(digest), fulcio),
            (RunStage::Verify { .. }, RunEvent::Verified(Err(cause))) => RunStage::Failed {
                failure: Failure::NotValidated { uri: args.uri, cause },
            },
            (RunStage::PullAndRun { .. }, RunEvent::PulledAndRun(Ok(()))) => RunStage::Done,
            (_, RunEvent::ExecutionMode(Err(cause))) => Self::stopped(cause),
            (_, RunEvent::VerificationOptions(Err(cause))) => Self::stopped(cause),
            (_, RunEvent::FulcioAndRekorData(Err(cause))) => Self::stopped(cause),
            (_, RunEvent::PulledAndRun(Err(cause))) => Self::stopped(cause),
            _ => self,
        }
    }

    /// Whether `event` tells what came of this stage's action.
    pub open spec fn expects(self, event: RunEvent<S, D, R, M>) -> bool {
        match self {
            RunStage::Request => event is RequestRead,
            RunStage::Settings { .. } => event is SettingsRead,
            RunStage::Remote { .. } => event is RemoteOptions,
            RunStage::Mode { .. } => event is ExecutionMode,
            RunStage::Options { .. } => event is VerificationOptions,
            RunStage::Fulcio { .. } => event is FulcioAndRekorData,
            RunStage::Verify { .. } => event is Verified,
            RunStage::PullAndRun { .. } => event is PulledAndRun,
            RunStage::Done => false,
            RunStage::Failed { .. } => false,
        }
    }

    /// How many actions may still come.
    pub open spec fn steps_left(self) -> nat {
        match self {
            RunStage::Request => 8,
            RunStage::Settings { .. } => 7,
            RunStage::Remote { .. } => 6,
            RunStage::Mode { .. } => 5,
            RunStage::Options { .. } => 4,
            RunStage::Fulcio { .. } => 3,
            RunStage::Verify { .. } => 2,
            RunStage::PullAndRun { .. } => 1,
            RunStage::Done => 0,
            RunStage::Failed { .. } => 0,
        }
    }
}

impl<S, D, R, M> RunSession<S, D, R, M> {
    /// A run before its first action.
    pub open spec fn started(args: RunArgs) -> Self {
        RunSession { args, stage: RunStage::Request }
    }

    /// The run behind `event`.
    pub open spec fn next(self, event: RunEvent<S, D, R, M>) -> Self {
        RunSession { args: self.args, stage: self.stage.next(self.args, event) }
    }

    /// What is to be done in this stage; nothing at the end.
    pub open spec fn next_action(self) -> Option<RunAction<'static, S, D, R, M>> {
        match self.stage {
            RunStage::Request => if self.args.reads_stdin() {
                Some(RunAction::ReadRequestFromStdin)
            } else {
                Some(RunAction::ReadRequestFile(&self.args.request_path))
            },
            RunStage::Settings { path, .. } => Some(RunAction::ReadSettings(&path)),
            RunStage::Remote { .. } => Some(RunAction::RemoteOptions(&self.args.remote)),
            RunStage::Mode { name, .. } => Some(RunAction::ExecutionMode(&name)),
            RunStage::Options { .. } => Some(
                RunAction::VerificationOptions(&self.args.verification),
            ),
            RunStage::Fulcio { .. } => Some(RunAction::FulcioAndRekorData(&self.args.fulcio)),
            RunStage::Verify { input, options, fulcio } => Some(
                RunAction::Verify {
                    uri: &self.args.uri,
                    remote: &input.remote,
                    options: &options,
                    fulcio: &fulcio,
                },
            ),
            RunStage::PullAndRun { input, digest, fulcio, enable_wasmtime_cache } => Some(
                RunAction::PullAndRun {
                    uri: &self.args.uri,
                    input: &input,
                    digest: &digest,
                    fulcio: &fulcio,
                    enable_wasmtime_cache,
                },
            ),
            RunStage::Done => None,
            RunStage::Failed { .. } => None,
        }
    }

    /// Starts a run.
    pub fn new(args: RunArgs) -> (res: Self)
        ensures
            res == Self::started(args),
    {
        RunSession { args, stage: RunStage::Request }
    }

    /// What is to be done next; nothing at the end.
    pub fn action(&self) -> (res: Option<RunAction<'_, S, D, R, M>>)
        ensures
            res == self.next_action(),
    {
        match &self.stage {
            RunStage::Request => if self.args.from_stdin() {
                Some(RunAction::ReadRequestFromStdin)
            } else {
                Some(RunAction::ReadRequestFile(&self.args.request_path))
            },
            RunStage::Settings { path, .. } => Some(RunAction::ReadSettings(path)),
            RunStage::Remote { .. } => Some(RunAction::RemoteOptions(&self.args.remote)),
            RunStage::Mode { name, .. } => Some(RunAction::ExecutionMode(name)),
            RunStage::Options { .. } => Some(
                RunAction::VerificationOptions(&self.args.verification),
            ),
            RunStage::Fulcio { .. } => Some(RunAction::FulcioAndRekorData(&self.args.fulcio)),
            RunStage::Verify { input, options, fulcio } => Some(
                RunAction::Verify { uri: &self.args.uri, remote: &input.remote, options, fulcio },
            ),
            RunStage::PullAndRun { input, digest, fulcio, enable_wasmtime_cache } => Some(
                RunAction::PullAndRun {
                    uri: &self.args.uri,
                    input,
                    digest,
                    fulcio,
                    enable_wasmtime_cache: *enable_wasmtime_cache,
                },
            ),
            RunStage::Done => None,
            RunStage::Failed { .. } => None,
        }
    }

    /// Tells whether `event` tells what came of this stage's action.
    pub fn awaits(&self, event: &RunEvent<S, D, R, M>) -> (res: bool)
        ensures
            res == self.stage.expects(*event),
    {
        match (&self.stage, event) {
            (RunStage::Request, RunEvent::RequestRead(_)) => true,
            (RunStage::Settings { .. }, RunEvent::SettingsRead(_)) => true,
            (RunStage::Remote { .. }, RunEvent::RemoteOptions(_)) => true,
            (RunStage::Mode { .. }, RunEvent::ExecutionMode(_)) => true,
            (RunStage::Options { .. }, RunEvent::VerificationOptions(_)) => true,
            (RunStage::Fulcio { .. }, RunEvent::FulcioAndRekorData(_)) => true,
            (RunStage::Verify { .. }, RunEvent::Verified(_)) => true,
            (RunStage::PullAndRun { .. }, RunEvent::PulledAndRun(_)) => true,
            _ => false,
        }
    }

    /// Takes in what came of this stage's action.
    pub fn advance(self, event: RunEvent<S, D, R, M>) -> (res: Self)
        requires
            self.stage.expects(event),
        ensures
            res == self.next(event),
    {
        let RunSession { args, stage } = self;
        let stage = match (stage, event) {
            (
                RunStage::Request,
                RunEvent::RequestRead(Ok(request)),
            ) => match settings::settings_choice(&args.settings_path, &args.settings_json) {
                Err(error) => unanswered(error),
                Ok(SettingsChoice::Conflict) => RunStage::Failed {
                    failure: Failure::ConflictingSettings,
                },
                Ok(SettingsChoice::File(path)) => RunStage::Settings { request, path },
                Ok(SettingsChoice::Inline(text)) => RunStage::Remote {
                    request,
                    settings: Some(text),
                },
                Ok(SettingsChoice::Absent) => RunStage::Remote { request, settings: None },
            },
            (RunStage::Request, RunEvent::RequestRead(Err(cause))) => RunStage::Failed {
                failure: if args.from_stdin() {
                    Failure::RequestFromStdin { cause }
                } else {
                    Failure::RequestFile { path: args.request_path.clone(), cause }
                },
            },
            (
                RunStage::Settings { request, .. },
                RunEvent::SettingsRead(Ok(settings)),
            ) => RunStage::Remote { request, settings: Some(settings) },
            (
                RunStage::Settings { path, .. },
                RunEvent::SettingsRead(Err(cause)),
            ) => RunStage::Failed { failure: Failure::SettingsFile { path, cause } },
            (
                RunStage::Remote { request, settings },
                RunEvent::RemoteOptions(Ok(remote)),
            ) => match args.execution_mode.one() {
                Ok(Some(name)) => RunStage::Mode { request, settings, remote, name },
                Ok(None) => RunStage::Options {
                    input: RunInput { request, settings, remote, execution_mode: None },
                },
                Err(error) => unanswered(error),
            },
            (RunStage::Remote { .. }, RunEvent::RemoteOptions(Err(cause))) => RunStage::Failed {
                failure: Failure::RemoteOptions { cause },
            },
            (
                RunStage::Mode { request, settings, remote, .. },
                RunEvent::ExecutionMode(Ok(mode)),
            ) => RunStage::Options {
                input: RunInput { request, settings, remote, execution_mode: Some(mode) },
            },
            (
                RunStage::Options { input },
                RunEvent::VerificationOptions(Ok(options)),
            ) => RunStage::Fulcio { input, options },
            (
                RunStage::Fulcio { input, options: Some(options) },
                RunEvent::FulcioAndRekorData(Ok(fulcio)),
            ) => RunStage::Verify { input, options, fulcio },
            (
                RunStage::Fulcio { input, options: None },
                RunEvent::FulcioAndRekorData(Ok(fulcio)),
            ) => run_with(&args, input, None, fulcio),
            (
                RunStage::Verify { input, fulcio, .. },
                RunEvent::Verified(Ok(digest)),
            ) => run_with(&args, input, Some(digest), fulcio),
            (RunStage::Verify { .. }, RunEvent::Verified(Err(cause))) => RunStage::Failed {
                failure: Failure::NotValidated { uri: args.uri.clone(), cause },
            },
            (RunStage::PullAndRun { .. }, RunEvent::PulledAndRun(Ok(()))) => RunStage::Done,
            (_, RunEvent::ExecutionMode(Err(cause))) => stop(cause),
            (_, RunEvent::VerificationOptions(Err(cause))) => stop(cause),
            (_, RunEvent::FulcioAndRekorData(Err(cause))) => stop(cause),
            (_, RunEvent::PulledAndRun(Err(cause))) => stop(cause),
            (stage, _) => stage,
        };
        RunSession { args, stage }
    }
}

fn stop<S, D, R, M>(cause: String) -> (res: RunStage<S, D, R, M>)
    ensures
        res == RunStage::<S, D, R, M>::stopped(cause),
{
    RunStage::Failed { failure: Failure::Outside(cause) }
}

fn unanswered<S, D, R, M>(error: ArgError) -> (res: RunStage<S, D, R, M>)
    ensures
        res == RunStage::<S, D, R, M>::no_answer(error),
{
    RunStage::Failed { failure: Failure::Argument(error) }
}

fn run_with<S, D, R, M>(
    args: &RunArgs,
    input: RunInput<S, D, M>,
    digest: Option<String>,
    fulcio: Option<FulcioAndRekorData<R>>,
) -> (res: RunStage<S, D, R, M>)
    ensures
        res == RunStage::with_all(*args, input, digest, fulcio),
{
    match args.disable_wasmtime_cache.contains() {
        Ok(disabled) => RunStage::PullAndRun {
            input,
            digest,
            fulcio,
            enable_wasmtime_cache: !disabled,
        },
        Err(error) => unanswered(error),
    }
}

/// What the outside answers to the actions of one run.
pub struct RunWorld<S, D, R, M> {
    pub request: Result<String, String>,
    pub settings: Result<String, String>,
    pub remote: Result<RemoteOptions<S, D>, String>,
    pub execution_mode: Result<M, String>,
    pub options: Result<Option<VerificationConfig>, String>,
    pub fulcio: Result<Option<FulcioAndRekorData<R>>, String>,
    pub verified: Result<String, String>,
    pub pulled_and_run: Result<(), String>,
}

impl<S, D, R, M> RunWorld<S, D, R, M> {
    /// What comes of the action of a stage.
    pub open spec fn answer(self, stage: RunStage<S, D, R, M>) -> RunEvent<S, D, R, M> {
        match stage {
            RunStage::Settings { .. } => RunEvent::SettingsRead(self.settings),
            RunStage::Remote { .. } => RunEvent::RemoteOptions(self.remote),
            RunStage::Mode { .. } => RunEvent::ExecutionMode(self.execution_mode),
            RunStage::Options { .. } => RunEvent::VerificationOptions(self.options),
            RunStage::Fulcio { .. } => RunEvent::FulcioAndRekorData(self.fulcio),
            RunStage::Verify { .. } => RunEvent::Verified(self.verified),
            RunStage::PullAndRun { .. } => RunEvent::PulledAndRun(self.pulled_and_run),
            _ => RunEvent::RequestRead(self.request),
        }
    }

    /// Whether the policy is to be verified.
    pub open spec fn verifies(self) -> bool {
        self.options matches Ok(Some(_))
    }

    /// Why a run with these arguments fails, if it does: the first of these that applies.
    pub open spec fn failure(self, args: RunArgs) -> Option<Failure> {
        if self.request is Err {
            Some(args.request_failure(self.request->Err_0))
        } else if self.settings_failure(args) is Some {
            self.settings_failure(args)
        } else if self.remote is Err {
            Some(Failure::RemoteOptions { cause: self.remote->Err_0 })
        } else if args.execution_mode.first() is Err {
            Some(Failure::Argument(args.execution_mode.first()->Err_0))
        } else if args.execution_mode.first()->Ok_0 is Some && self.execution_mode is Err {
            failure::cause_of(self.execution_mode)
        } else if self.options is Err {
            failure::cause_of(self.options)
        } else if self.fulcio is Err {
            failure::cause_of(self.fulcio)
        } else if self.verifies() && self.verified is Err {
            Some(Failure::NotValidated { uri: args.uri, cause: self.verified->Err_0 })
        } else if args.disable_wasmtime_cache.presence() is Err {
            Some(Failure::Argument(args.disable_wasmtime_cache.presence()->Err_0))
        } else {
            failure::cause_of(self.pulled_and_run)
        }
    }

    /// Why there are no settings to run the policy with, where that stops the run.
    pub open spec fn settings_failure(self, args: RunArgs) -> Option<Failure> {
        match (args.choice(), self.settings) {
            (Err(error), _) => Some(Failure::Argument(error)),
            (Ok(SettingsChoice::Conflict), _) => Some(Failure::ConflictingSettings),
            (Ok(SettingsChoice::File(path)), Err(cause)) => Some(
                Failure::SettingsFile { path, cause },
            ),
            _ => None,
        }
    }

    /// What the policy is run with, where all answers before the run are good.
    pub open spec fn input(self, args: RunArgs) -> RunInput<S, D, M> {
        RunInput {
            request: self.request->Ok_0,
            settings: match args.choice() {
                Ok(SettingsChoice::File(_)) => Some(self.settings->Ok_0),
                Ok(SettingsChoice::Inline(text)) => Some(text),
                _ => None,
            },
            remote: self.remote->Ok_0,
            execution_mode: match args.execution_mode.first() {
                Ok(Some(_)) => Some(self.execution_mode->Ok_0),
                _ => None,
            },
        }
    }
}

impl<S, D, R, M> RunSession<S, D, R, M> {
    /// What the run comes to in `world`.
    pub open spec fn run(self, world: RunWorld<S, D, R, M>) -> Self
        decreases self.stage.steps_left(),
    {
        if self.stage is Done || self.stage is Failed {
            self
        } else {
            self.next(world.answer(self.stage)).run(world)
        }
    }

    /// The stages that the run goes through in `world`, from here on.
    pub open spec fn stages(self, world: RunWorld<S, D, R, M>) -> Seq<RunStage<S, D, R, M>>
        decreases self.stage.steps_left(),
    {
        if self.stage is Done || self.stage is Failed {
            seq![self.stage]
        } else {
            seq![self.stage] + self.next(world.answer(self.stage)).stages(world)
        }
    }
}

/// Every answer brings a run closer to its end.
pub proof fn run_ends<S, D, R, M>(session: RunSession<S, D, R, M>, event: RunEvent<S, D, R, M>)
    requires
        session.stage.expects(event),
    ensures
        session.next(event).stage.steps_left() < session.stage.steps_left(),
{
}

/// A run ends well unless one of its actions fails, its settings are given twice or an argument
/// gives no answer where it is needed, and then with the first failure.
pub proof fn run_comes_to_its_outcome<S, D, R, M>(args: RunArgs, world: RunWorld<S, D, R, M>)
    ensures
        RunSession::started(args).run(world).stage == match world.failure(args) {
            None => RunStage::<S, D, R, M>::Done,
            Some(failure) => RunStage::<S, D, R, M>::Failed { failure },
        },
{
    reveal_with_fuel(RunSession::run, 9);
}

/// A policy is pulled and run only with what the actions before gave, and where verification
/// options are given, only once it has been verified and with the digest that this gave.
pub proof fn policy_is_verified_before_it_is_run<S, D, R, M>(
    args: RunArgs,
    world: RunWorld<S, D, R, M>,
    i: int,
)
    requires
        0 <= i < RunSession::started(args).stages(world).len(),
        RunSession::started(args).stages(world)[i] is PullAndRun,
    ensures
        RunSession::started(args).stages(world)[i] matches RunStage::PullAndRun {
            input,
            digest,
            fulcio,
            enable_wasmtime_cache,
        } && {
            &&& input == world.input(args)
            &&& args.disable_wasmtime_cache.presence() == Ok::<bool, ArgError>(
                !enable_wasmtime_cache,
            )
            &&& world.fulcio == Ok::<Option<FulcioAndRekorData<R>>, String>(fulcio)
            &&& world.verifies() ==> world.verified is Ok && digest == Some(world.verified->Ok_0)
            &&& !world.verifies() ==> digest is None
        },
{
    reveal_with_fuel(RunSession::stages, 9);
}

/// Settings that are given twice never get a policy run.
pub proof fn conflicting_settings_are_never_run<S, D, R, M>(
    args: RunArgs,
    world: RunWorld<S, D, R, M>,
    i: int,
)
    requires
        args.choice() == Ok::<SettingsChoice, ArgError>(SettingsChoice::Conflict),
        0 <= i < RunSession::started(args).stages(world).len(),
    ensures
        RunSession::started(args).stages(world)[i] is Request || RunSession::started(args).stages(
            world,
        )[i] is Failed,
{
    reveal_with_fuel(RunSession::stages, 3);
}

/// A run reads its request from the standard input where the path is `-`, and else from the file at
/// that path.
pub proof fn run_reads_its_request<S, D, R, M>(args: RunArgs, cause: String)
    ensures
        ({
            let s0 = RunSession::<S, D, R, M>::started(args);
            let s1 = s0.next(RunEvent::RequestRead(Err(cause)));
            &&& args.request_path@ == "-"@ ==> {
                &&& s0.next_action() == Some(RunAction::<S, D, R, M>::ReadRequestFromStdin)
                &&& s1.stage == (RunStage::<S, D, R, M>::Failed {
                    failure: Failure::RequestFromStdin { cause },
                })
            }
            &&& args.request_path@ != "-"@ ==> {
                &&& s0.next_action() == Some(
                    RunAction::<S, D, R, M>::ReadRequestFile(&args.request_path),
                )
                &&& s1.stage == (RunStage::<S, D, R, M>::Failed {
                    failure: Failure::RequestFile { path: args.request_path, cause },
                })
            }
        }),
{
}

/// Behind its request, a run goes on with the settings of the file that the command line names,
/// with its text, or with none; and it does not go on where both are there.
pub proof fn run_goes_on_with_its_settings<S, D, R, M>(
    args: RunArgs,
    request: String,
    settings: String,
)
    ensures
        ({
            let s1 = RunSession::<S, D, R, M>::started(args).next(
                RunEvent::RequestRead(Ok(request)),
            );
            let s2 = s1.next(RunEvent::SettingsRead(Ok(settings)));
            &&& s1.args == args
            &&& s2.args == args
            &&& args.settings_json.content is Absent && (args.settings_path.content is Absent || (
            args.settings_path.content matches Content::Values(values) && values@.len() == 0))
                ==> s1.stage == (RunStage::<S, D, R, M>::Remote { request, settings: None })
            &&& (args.settings_json.content matches Content::Values(values) && values@.len() > 0
                && args.settings_path.content is Absent) ==> s1.stage == (RunStage::<
                S,
                D,
                R,
                M,
            >::Remote { request, settings: Some(args.settings_json.content->Values_0@[0]) })
            &&& (args.settings_path.content matches Content::Values(values) && values@.len() > 0
                && args.settings_json.content is Absent) ==> s1.next_action() == Some(
                RunAction::<S, D, R, M>::ReadSettings(&args.settings_path.content->Values_0@[0]),
            ) && s2.stage == (RunStage::<S, D, R, M>::Remote { request, settings: Some(settings) })
            &&& (args.settings_path.content is Values || args.settings_path.content is Foreign) && (
            args.settings_json.content is Values || args.settings_json.content is Foreign)
                ==> s1.stage == (RunStage::<S, D, R, M>::Failed {
                failure: Failure::ConflictingSettings,
            })
        }),
{
}

/// Whether `session` asks next to pull and run the policy of `args`: with this request, these
/// settings and remote options, this execution mode, the digest of the verification, if there was
/// one, and this data; and with the cache unless the command line says otherwise.
pub open spec fn runs_policy<S, D, R, M>(
    session: RunSession<S, D, R, M>,
    args: RunArgs,
    request: String,
    settings: Option<String>,
    remote: RemoteOptions<S, D>,
    mode: Option<M>,
    digest: Option<String>,
    fulcio: Option<FulcioAndRekorData<R>>,
) -> bool {
    &&& session.next_action() matches Some(
        RunAction::PullAndRun { uri, input, digest: d, fulcio: f, enable_wasmtime_cache },
    )
    &&& *uri == args.uri
    &&& input.request == request
    &&& input.settings == settings
    &&& input.remote == remote
    &&& input.execution_mode == mode
    &&& *d == digest
    &&& *f == fulcio
    &&& enable_wasmtime_cache == (args.disable_wasmtime_cache.content is Absent)
}

/// Behind its settings, a run asks for one thing after the other, each with what the command line
/// and the answers before gave: where there are verification options, the policy is verified with
/// these very options, remote options and data, and then run with the digest that this gave;
/// without them it is run with no digest.
pub proof fn run_hands_on_its_answers<S, D, R, M>(
    session: RunSession<S, D, R, M>,
    request: String,
    settings: Option<String>,
    remote: RemoteOptions<S, D>,
    mode: M,
    options: VerificationConfig,
    fulcio: Option<FulcioAndRekorData<R>>,
    digest: String,
)
    requires
        session.stage == (RunStage::<S, D, R, M>::Remote { request, settings }),
        session.args.execution_mode.content is Absent
            || session.args.execution_mode.content is Values,
    ensures
        ({
            let args = session.args;
            let named = args.execution_mode.content matches Content::Values(values) && values@.len()
                > 0;
            let s1 = session.next(RunEvent::RemoteOptions(Ok(remote)));
            let s2 = if named {
                s1.next(RunEvent::ExecutionMode(Ok(mode)))
            } else {
                s1
            };
            let found = if named {
                Some(mode)
            } else {
                None
            };
            let s3 = s2.next(RunEvent::VerificationOptions(Ok(Some(options))));
            let s4 = s3.next(RunEvent::FulcioAndRekorData(Ok(fulcio)));
            let s5 = s4.next(RunEvent::Verified(Ok(digest)));
            let t3 = s2.next(RunEvent::VerificationOptions(Ok(None)));
            let t4 = t3.next(RunEvent::FulcioAndRekorData(Ok(fulcio)));
            &&& session.next_action() == Some(
                RunAction::<S, D, R, M>::RemoteOptions(&args.remote),
            )
            &&& named ==> s1.next_action() == Some(
                RunAction::<S, D, R, M>::ExecutionMode(&args.execution_mode.content->Values_0@[0]),
            )
            &&& s2.next_action() == Some(
                RunAction::<S, D, R, M>::VerificationOptions(&args.verification),
            )
            &&& s3.next_action() == Some(
                RunAction::<S, D, R, M>::FulcioAndRekorData(&args.fulcio),
            )
            &&& args.disable_wasmtime_cache.content !is Unknown ==> {
                &&& runs_policy(s5, args, request, settings, remote, found, Some(digest), fulcio)
                &&& s5.next(RunEvent::PulledAndRun(Ok(()))).stage is Done
                &&& runs_policy(t4, args, request, settings, remote, found, None, fulcio)
                &&& t4.next(RunEvent::PulledAndRun(Ok(()))).stage is Done
            }
            &&& t3.next_action() == Some(
                RunAction::<S, D, R, M>::FulcioAndRekorData(&args.fulcio),
            )
            &&& s4.next_action() matches Some(
                RunAction::Verify { uri, remote: r, options: o, fulcio: f },
            )
            &&& *uri == args.uri
            &&& *r == remote
            &&& *o == options
            &&& *f == fulcio
        }),
{
}

/// A run that an answer stops tells the cause of that answer; settings that cannot be read are told
/// by their path, and a refused policy by its URI.
pub proof fn run_tells_the_cause<S, D, R, M>(session: RunSession<S, D, R, M>, cause: String)
    ensures
        session.next_action() matches Some(RunAction::ReadSettings(path)) ==> session.next(
            RunEvent::SettingsRead(Err(cause)),
        ).stage == (RunStage::<S, D, R, M>::Failed {
            failure: Failure::SettingsFile { path: *path, cause },
        }),
        session.next_action() matches Some(RunAction::RemoteOptions(_)) ==> session.next(
            RunEvent::RemoteOptions(Err(cause)),
        ).stage == (RunStage::<S, D, R, M>::Failed { failure: Failure::RemoteOptions { cause } }),
        session.next_action() matches Some(RunAction::ExecutionMode(_)) ==> session.next(
            RunEvent::ExecutionMode(Err(cause)),
        ).stage == (RunStage::<S, D, R, M>::Failed { failure: Failure::Outside(cause) }),
        session.next_action() matches Some(RunAction::VerificationOptions(_)) ==> session.next(
            RunEvent::VerificationOptions(Err(cause)),
        ).stage == (RunStage::<S, D, R, M>::Failed { failure: Failure::Outside(cause) }),
        session.next_action() matches Some(RunAction::FulcioAndRekorData(_)) ==> session.next(
            RunEvent::FulcioAndRekorData(Err(cause)),
        ).stage == (RunStage::<S, D, R, M>::Failed { failure: Failure::Outside(cause) }),
        session.next_action() matches Some(RunAction::Verify { .. }) ==> session.next(
            RunEvent::Verified(Err(cause)),
        ).stage == (RunStage::<S, D, R, M>::Failed {
            failure: Failure::NotValidated { uri: session.args.uri, cause },
        }),
        session.next_action() matches Some(RunAction::PullAndRun { .. }) ==> session.next(
            RunEvent::PulledAndRun(Err(cause)),
        ).stage == (RunStage::<S, D, R, M>::Failed { failure: Failure::Outside(cause) }),
{
}

/// A run takes in exactly the answers to what it asks for, and asks for nothing at its end.
pub proof fn run_takes_answers_to_its_action<S, D, R, M>(
    session: RunSession<S, D, R, M>,
    event: RunEvent<S, D, R, M>,
)
    ensures
        session.stage.expects(event) == match session.next_action() {
            Some(RunAction::ReadRequestFromStdin) => event is RequestRead,
            Some(RunAction::ReadRequestFile(_)) => event is RequestRead,
            Some(RunAction::ReadSettings(_)) => event is SettingsRead,
            Some(RunAction::RemoteOptions(_)) => event is RemoteOptions,
            Some(RunAction::ExecutionMode(_)) => event is ExecutionMode,
            Some(RunAction::VerificationOptions(_)) => event is VerificationOptions,
            Some(RunAction::FulcioAndRekorData(_)) => event is FulcioAndRekorData,
            Some(RunAction::Verify { .. }) => event is Verified,
            Some(RunAction::PullAndRun { .. }) => event is PulledAndRun,
            None => false,
        },
        session.next_action() is None == (session.stage is Done || session.stage is Failed),
{
}

/// An argument of a run that cannot be read never passes for one that is not there: the run fails
/// with it, once it is needed.
pub proof fn unreadable_run_argument_is_no_absent_one<S, D, R, M>(
    session: RunSession<S, D, R, M>,
    request: String,
    remote: RemoteOptions<S, D>,
    fulcio: Option<FulcioAndRekorData<R>>,
    digest: String,
)
    ensures
        session.stage is Request && session.args.settings_path.content is Unknown ==> session.next(
            RunEvent::RequestRead(Ok(request)),
        ).stage == (RunStage::<S, D, R, M>::Failed {
            failure: Failure::Argument(ArgError::Unreadable(session.args.settings_path.id)),
        }),
        session.stage is Request && session.args.settings_path.content !is Unknown
            && session.args.settings_json.content is Unknown ==> session.next(
            RunEvent::RequestRead(Ok(request)),
        ).stage == (RunStage::<S, D, R, M>::Failed {
            failure: Failure::Argument(ArgError::Unreadable(session.args.settings_json.id)),
        }),
        session.stage is Remote && (session.args.execution_mode.content is Unknown
            || session.args.execution_mode.content is Foreign) ==> session.next(
            RunEvent::RemoteOptions(Ok(remote)),
        ).stage == (RunStage::<S, D, R, M>::Failed {
            failure: Failure::Argument(ArgError::Unreadable(session.args.execution_mode.id)),
        }),
        session.stage is Verify && session.args.disable_wasmtime_cache.content is Unknown
            ==> session.next(RunEvent::Verified(Ok(digest))).stage == (RunStage::<
            S,
            D,
            R,
            M,
        >::Failed {
            failure: Failure::Argument(
                ArgError::Unreadable(session.args.disable_wasmtime_cache.id),
            ),
        }),
        (session.stage matches RunStage::Fulcio { options, .. } && options is None
            && session.args.disable_wasmtime_cache.content is Unknown) ==> session.next(
            RunEvent::FulcioAndRekorData(Ok(fulcio)),
        ).stage == (RunStage::<S, D, R, M>::Failed {
            failure: Failure::Argument(
                ArgError::Unreadable(session.args.disable_wasmtime_cache.id),
            ),
        }),
{
}

} // verus!
