//! Pushing a policy to a registry.

use crate::arg::{Arg, ArgError, ArgView, Content};
use crate::failure;
use crate::failure::Failure;
use crate::output;
use crate::remote::{RemoteArgs, RemoteArgsView, RemoteOptions};
use vstd::prelude::*;

verus! {

/// What the command line says on a push.
pub struct PushArgs {
    /// The policy to push, as a path or a URI.
    pub policy: Arg,
    /// Where it goes.
    pub uri: Arg,
    pub remote: RemoteArgs,
    pub force: Arg,
    pub output: Arg,
}

pub struct PushArgsView {
    pub policy: ArgView,
    pub uri: ArgView,
    pub remote: RemoteArgsView,
    pub force: ArgView,
    pub output: ArgView,
}

impl View for PushArgs {
    type V = PushArgsView;

    open spec fn view(&self) -> PushArgsView {
        PushArgsView {
            policy: self.policy@,
            uri: self.uri@,
            remote: self.remote@,
            force: self.force@,
            output: self.output@,
        }
    }
}

/// How far a push is. `W` is the path of the file that is pushed.
pub enum PushStage<S, D, W> {
    /// The options of remote servers are to be had.
    Remote,
    /// The policy is to be turned into a URI.
    PolicyUri { remote: RemoteOptions<S, D>, policy: String },
    /// The file behind that URI is to be found.
    WasmPath { remote: RemoteOptions<S, D>, policy_uri: String },
    /// The file is to be pushed.
    Push { remote: RemoteOptions<S, D>, wasm_path: W, uri: String, force: bool },
    /// The outcome is to be told.
    Report { immutable_ref: String, output: Option<String> },
    Done,
    Failed { failure: Failure },
}

/// A push under way.
pub struct PushSession<S, D, W> {
    pub args: PushArgs,
    pub stage: PushStage<S, D, W>,
}

/// What is to be done next.
pub enum PushAction<'a, S, D, W> {
    RemoteOptions(&'a RemoteArgs),
    MapPathToUri(&'a String),
    WasmPath(&'a String),
    Push {
        wasm_path: &'a W,
        uri: String,
        remote: &'a RemoteOptions<S, D>,
        force: bool,
    },
    Print(String),
}

/// What came of an action. An error is the text of its cause.
pub enum PushEvent<S, D, W> {
    RemoteOptions(Result<RemoteOptions<S, D>, String>),
    PathMapped(Result<String, String>),
    WasmPath(Result<W, String>),
    Pushed(Result<String, String>),
    Printed(Result<(), String>),
}

impl<S, D, W> PushStage<S, D, W> {
    /// The end of a push that something outside has stopped.
    pub open spec fn stopped(cause: String) -> Self {
        PushStage::Failed { failure: Failure::Outside(cause) }
    }

    /// The end of a push that an argument has stopped.
    pub open spec fn no_answer(error: ArgError) -> Self {
        PushStage::Failed { failure: Failure::Argument(error) }
    }

    /// The stage in which the options of remote servers are there. Only here it counts which policy
    /// is named.
    pub open spec fn with_remote(args: PushArgs, remote: RemoteOptions<S, D>) -> Self {
        match args.policy.sole() {
            Ok(policy) => PushStage::PolicyUri { remote, policy },
            Err(error) => Self::no_answer(error),
        }
    }

    /// The stage in which the file is found. Only here it counts where it goes.
    pub open spec fn with_file(args: PushArgs, remote: RemoteOptions<S, D>, wasm_path: W) -> Self {
        match (args.uri.sole(), args.force.presence()) {
            (Err(error), _) => Self::no_answer(error),
            (_, Err(error)) => Self::no_answer(error),
            (Ok(uri), Ok(force)) => PushStage::Push { remote, wasm_path, uri, force },
        }
    }

    /// The stage in which the file is pushed. Only here it counts how that is to be told.
    pub open spec fn with_ref(args: PushArgs, immutable_ref: String) -> Self {
        match args.output.first() {
            Ok(output) => PushStage::Report { immutable_ref, output },
            Err(error) => Self::no_answer(error),
        }
    }

    /// The stage behind `event`, in a push with these arguments.
    pub open spec fn next(self, args: PushArgs, event: PushEvent<S, D, W>) -> Self {
        match (self, event) {
            (PushStage::Remote, PushEvent::RemoteOptions(Ok(remote))) => Self::with_remote(
                args,
                remote,
            ),
            (
                PushStage::PolicyUri { remote, .. },
                PushEvent::PathMapped(Ok(policy_uri)),
            ) => PushStage::WasmPath { remote, policy_uri },
            (
                PushStage::WasmPath { remote, .. },
                PushEvent::WasmPath(Ok(wasm_path)),
            ) => Self::with_file(args, remote, wasm_path),
            (PushStage::Push { .. }, PushEvent::Pushed(Ok(immutable_ref))) => Self::with_ref(
                args,
                immutable_ref,
            ),
            (PushStage::Report { .. }, PushEvent::Printed(Ok(()))) => PushStage::Done,
            (_, PushEvent::RemoteOptions(Err(cause))) => Self::stopped(cause),
            (_, PushEvent::PathMapped(Err(cause))) => Self::stopped(cause),
            (_, PushEvent::WasmPath(Err(cause))) => Self::stopped(cause),
            (_, PushEvent::Pushed(Err(cause))) => Self::stopped(cause),
            (_, PushEvent::Printed(Err(cause))) => Self::stopped(cause),
            _ => self,
        }
    }

    /// Whether `event` tells what came of this stage's action.
    pub open spec fn expects(self, event: PushEvent<S, D, W>) -> bool {
        match self {
            PushStage::Remote => event is RemoteOptions,
            PushStage::PolicyUri { .. } => event is PathMapped,
            PushStage::WasmPath { .. } => event is WasmPath,
            PushStage::Push { .. } => event is Pushed,
            PushStage::Report { .. } => event is Printed,
            PushStage::Done => false,
            PushStage::Failed { .. } => false,
        }
    }

    /// How many actions may still come.
    pub open spec fn steps_left(self) -> nat {
        match self {
            PushStage::Remote => 5,
            PushStage::PolicyUri { .. } => 4,
            PushStage::WasmPath { .. } => 3,
            PushStage::Push { .. } => 2,
            PushStage::Report { .. } => 1,
            PushStage::Done => 0,
            PushStage::Failed { .. } => 0,
        }
    }
}

impl<S, D, W> PushSession<S, D, W> {
    /// A push before its first action.
    pub open spec fn started(args: PushArgs) -> Self {
        PushSession { args, stage: PushStage::Remote }
    }

    /// The push behind `event`.
    pub open spec fn next(self, event: PushEvent<S, D, W>) -> Self {
        PushSession { args: self.args, stage: self.stage.next(self.args, event) }
    }

    /// Whether `action` is what is to be done in this stage.
    pub open spec fn asks_for(self, action: Option<PushAction<'_, S, D, W>>) -> bool {
        match self.stage {
            PushStage::Remote => action == Some(
                PushAction::<S, D, W>::RemoteOptions(&self.args.remote),
            ),
            PushStage::PolicyUri { policy, .. } => action == Some(
                PushAction::<S, D, W>::MapPathToUri(&policy),
            ),
            PushStage::WasmPath { policy_uri, .. } => action == Some(
                PushAction::<S, D, W>::WasmPath(&policy_uri),
            ),
            PushStage::Push { remote: known, wasm_path: path, uri: given, force: forced } => {
                &&& action matches Some(PushAction::Push { wasm_path, uri, remote, force })
                &&& *wasm_path == path
                &&& uri@ == output::with_registry_scheme(given@)
                &&& *remote == known
                &&& force == forced
            },
            PushStage::Report { immutable_ref, output } => {
                &&& action matches Some(PushAction::Print(text))
                &&& text@ == output::push_text(output.deep_view(), immutable_ref@)
            },
            PushStage::Done => action is None,
            PushStage::Failed { .. } => action is None,
        }
    }

    /// Starts a push.
    pub fn new(args: PushArgs) -> (res: Self)
        ensures
            res == Self::started(args),
    {
        PushSession { args, stage: PushStage::Remote }
    }

    /// What is to be done next; nothing at the end.
    pub fn action(&self) -> (res: Option<PushAction<'_, S, D, W>>)
        ensures
            self.asks_for(res),
    {
        match &self.stage {
            PushStage::Remote => Some(PushAction::RemoteOptions(&self.args.remote)),
            PushStage::PolicyUri { policy, .. } => Some(PushAction::MapPathToUri(policy)),
            PushStage::WasmPath { policy_uri, .. } => Some(PushAction::WasmPath(policy_uri)),
            PushStage::Push { remote, wasm_path, uri, force } => Some(
                PushAction::Push {
                    wasm_path,
                    uri: output::registry_uri(uri),
                    remote,
                    force: *force,
                },
            ),
            PushStage::Report { immutable_ref, output } => Some(
                PushAction::Print(output::push_report(output, immutable_ref)),
            ),
            PushStage::Done => None,
            PushStage::Failed { .. } => None,
        }
    }

    /// Tells whether `event` tells what came of this stage's action.
    pub fn awaits(&self, event: &PushEvent<S, D, W>) -> (res: bool)
        ensures
            res == self.stage.expects(*event),
    {
        match (&self.stage, event) {
            (PushStage::Remote, PushEvent::RemoteOptions(_)) => true,
            (PushStage::PolicyUri { .. }, PushEvent::PathMapped(_)) => true,
            (PushStage::WasmPath { .. }, PushEvent::WasmPath(_)) => true,
            (PushStage::Push { .. }, PushEvent::Pushed(_)) => true,
            (PushStage::Report { .. }, PushEvent::Printed(_)) => true,
            _ => false,
        }
    }

    /// Takes in what came of this stage's action.
    pub fn advance(self, event: PushEvent<S, D, W>) -> (res: Self)
        requires
            self.stage.expects(event),
        ensures
            res == self.next(event),
    {
        let PushSession { args, stage } = self;
        let stage = match (stage, event) {
            (
                PushStage::Remote,
                PushEvent::RemoteOptions(Ok(remote)),
            ) => match args.policy.required() {
                Ok(policy) => PushStage::PolicyUri { remote, policy },
                Err(error) => unanswered(error),
            },
            (
                PushStage::PolicyUri { remote, .. },
                PushEvent::PathMapped(Ok(policy_uri)),
            ) => PushStage::WasmPath { remote, policy_uri },
            (
                PushStage::WasmPath { remote, .. },
                PushEvent::WasmPath(Ok(wasm_path)),
            ) => match args.uri.required() {
                Ok(uri) => match args.force.contains() {
                    Ok(force) => PushStage::Push { remote, wasm_path, uri, force },
                    Err(error) => unanswered(error),
                },
                Err(error) => unanswered(error),
            },
            (
                PushStage::Push { .. },
                PushEvent::Pushed(Ok(immutable_ref)),
            ) => match args.output.one() {
                Ok(output) => PushStage::Report { immutable_ref, output },
                Err(error) => unanswered(error),
            },
            (PushStage::Report { .. }, PushEvent::Printed(Ok(()))) => PushStage::Done,
            (_, PushEvent::RemoteOptions(Err(cause))) => stop(cause),
            (_, PushEvent::PathMapped(Err(cause))) => stop(cause),
            (_, PushEvent::WasmPath(Err(cause))) => stop(cause),
            (_, PushEvent::Pushed(Err(cause))) => stop(cause),
            (_, PushEvent::Printed(Err(cause))) => stop(cause),
            (stage, _) => stage,
        };
        PushSession { args, stage }
    }
}

fn stop<S, D, W>(cause: String) -> (res: PushStage<S, D, W>)
    ensures
        res == PushStage::<S, D, W>::stopped(cause),
{
    PushStage::Failed { failure: Failure::Outside(cause) }
}

fn unanswered<S, D, W>(error: ArgError) -> (res: PushStage<S, D, W>)
    ensures
        res == PushStage::<S, D, W>::no_answer(error),
{
    PushStage::Failed { failure: Failure::Argument(error) }
}

/// What the outside answers to the actions of one push.
pub struct PushWorld<S, D, W> {
    pub remote: Result<RemoteOptions<S, D>, String>,
    pub policy_uri: Result<String, String>,
    pub wasm_path: Result<W, String>,
    pub pushed: Result<String, String>,
    pub printed: Result<(), String>,
}

impl<S, D, W> PushWorld<S, D, W> {
    /// What comes of the action of a stage.
    pub open spec fn answer(self, stage: PushStage<S, D, W>) -> PushEvent<S, D, W> {
        match stage {
            PushStage::PolicyUri { .. } => PushEvent::PathMapped(self.policy_uri),
            PushStage::WasmPath { .. } => PushEvent::WasmPath(self.wasm_path),
            PushStage::Push { .. } => PushEvent::Pushed(self.pushed),
            PushStage::Report { .. } => PushEvent::Printed(self.printed),
            _ => PushEvent::RemoteOptions(self.remote),
        }
    }

    /// Why a push with these arguments fails, if it does: the first of these that applies.
    pub open spec fn failure(self, args: PushArgs) -> Option<Failure> {
        if self.remote is Err {
            failure::cause_of(self.remote)
        } else if args.policy.sole() is Err {
            Some(Failure::Argument(args.policy.sole()->Err_0))
        } else if self.policy_uri is Err {
            failure::cause_of(self.policy_uri)
        } else if self.wasm_path is Err {
            failure::cause_of(self.wasm_path)
        } else if args.uri.sole() is Err {
            Some(Failure::Argument(args.uri.sole()->Err_0))
        } else if args.force.presence() is Err {
            Some(Failure::Argument(args.force.presence()->Err_0))
        } else if self.pushed is Err {
            failure::cause_of(self.pushed)
        } else if args.output.first() is Err {
            Some(Failure::Argument(args.output.first()->Err_0))
        } else {
            failure::cause_of(self.printed)
        }
    }
}

impl<S, D, W> PushSession<S, D, W> {
    /// What the push comes to in `world`.
    pub open spec fn run(self, world: PushWorld<S, D, W>) -> Self
        decreases self.stage.steps_left(),
    {
        if self.stage is Done || self.stage is Failed {
            self
        } else {
            self.next(world.answer(self.stage)).run(world)
        }
    }
}

/// Every answer brings a push closer to its end.
pub proof fn push_ends<S, D, W>(session: PushSession<S, D, W>, event: PushEvent<S, D, W>)
    requires
        session.stage.expects(event),
    ensures
        session.next(event).stage.steps_left() < session.stage.steps_left(),
{
}

/// A push ends well unless one of its actions fails or an argument gives no answer where it is
/// needed, and then with the first failure.
pub proof fn push_comes_to_its_outcome<S, D, W>(args: PushArgs, world: PushWorld<S, D, W>)
    ensures
        PushSession::started(args).run(world).stage == match world.failure(args) {
            None => PushStage::<S, D, W>::Done,
            Some(failure) => PushStage::<S, D, W>::Failed { failure },
        },
{
    reveal_with_fuel(PushSession::run, 6);
}

/// Whether `action` is to push the file at `path` to `uri`, with the scheme of a registry, with
/// these remote options, and by force or not.
pub open spec fn pushes<S, D, W>(
    action: Option<PushAction<'_, S, D, W>>,
    path: W,
    uri: Seq<char>,
    remote: RemoteOptions<S, D>,
    by_force: bool,
) -> bool {
    &&& action matches Some(PushAction::Push { wasm_path, uri: to, remote: r, force })
    &&& *wasm_path == path
    &&& *r == remote
    &&& force == by_force
    &&& "registry://"@.is_prefix_of(uri) ==> to@ == uri
    &&& !"registry://"@.is_prefix_of(uri) ==> to@ == "registry://"@ + uri
}

/// A push turns the policy on the command line into a URI, that into a file, and pushes that file
/// to the URI on the command line, with the remote options that were had, and by force where the
/// command line says so. What is told is the reference that the push gave: as an object where the
/// command line asks for JSON, and else on a line.
pub proof fn push_hands_on_its_answers<S, D, W>(
    args: PushArgs,
    policies: Vec<String>,
    uris: Vec<String>,
    remote: RemoteOptions<S, D>,
    policy_uri: String,
    path: W,
    immutable_ref: String,
    actions: Seq<Option<PushAction<'_, S, D, W>>>,
)
    requires
        args.policy.content == Content::Values(policies),
        policies@.len() > 0,
        args.uri.content == Content::Values(uris),
        uris@.len() > 0,
        args.force.content !is Unknown,
        actions.len() == 5,
        ({
            let s0 = PushSession::<S, D, W>::started(args);
            let s1 = s0.next(PushEvent::RemoteOptions(Ok(remote)));
            let s2 = s1.next(PushEvent::PathMapped(Ok(policy_uri)));
            let s3 = s2.next(PushEvent::WasmPath(Ok(path)));
            let s4 = s3.next(PushEvent::Pushed(Ok(immutable_ref)));
            &&& s0.asks_for(actions[0])
            &&& s1.asks_for(actions[1])
            &&& s2.asks_for(actions[2])
            &&& s3.asks_for(actions[3])
            &&& s4.asks_for(actions[4])
        }),
    ensures
        actions[0] == Some(PushAction::<S, D, W>::RemoteOptions(&args.remote)),
        actions[1] == Some(PushAction::<S, D, W>::MapPathToUri(&policies@[0])),
        actions[2] == Some(PushAction::<S, D, W>::WasmPath(&policy_uri)),
        pushes(actions[3], path, uris@[0]@, remote, args.force.content !is Absent),
        args.output.content is Absent || args.output.content is Values ==> (actions[4] matches Some(
            PushAction::Print(text),
        ) && text@ == (
        if args.output.content matches Content::Values(values) && values@.len() > 0 && values@[0]@
            == "json"@ {
            output::json_member("immutable_ref"@, immutable_ref@)
        } else {
            "Policy successfully pushed: "@ + immutable_ref@ + "\n"@
        })),
        args.output.content is Absent || args.output.content is Values ==> PushSession::<
            S,
            D,
            W,
        >::started(args).next(PushEvent::RemoteOptions(Ok(remote))).next(
            PushEvent::PathMapped(Ok(policy_uri)),
        ).next(PushEvent::WasmPath(Ok(path))).next(PushEvent::Pushed(Ok(immutable_ref))).next(
            PushEvent::Printed(Ok(())),
        ).stage is Done,
{
}

/// A push that an answer stops tells the cause of that answer.
pub proof fn push_tells_the_cause<S, D, W>(
    session: PushSession<S, D, W>,
    action: Option<PushAction<'_, S, D, W>>,
    cause: String,
)
    requires
        session.asks_for(action),
    ensures
        action matches Some(PushAction::RemoteOptions(_)) ==> session.next(
            PushEvent::RemoteOptions(Err(cause)),
        ).stage == (PushStage::<S, D, W>::Failed { failure: Failure::Outside(cause) }),
        action matches Some(PushAction::MapPathToUri(_)) ==> session.next(
            PushEvent::PathMapped(Err(cause)),
        ).stage == (PushStage::<S, D, W>::Failed { failure: Failure::Outside(cause) }),
        action matches Some(PushAction::WasmPath(_)) ==> session.next(
            PushEvent::WasmPath(Err(cause)),
        ).stage == (PushStage::<S, D, W>::Failed { failure: Failure::Outside(cause) }),
        action matches Some(PushAction::Push { .. }) ==> session.next(
            PushEvent::Pushed(Err(cause)),
        ).stage == (PushStage::<S, D, W>::Failed { failure: Failure::Outside(cause) }),
        action matches Some(PushAction::Print(_)) ==> session.next(
            PushEvent::Printed(Err(cause)),
        ).stage == (PushStage::<S, D, W>::Failed { failure: Failure::Outside(cause) }),
{
}

/// A push takes in exactly the answers to what it asks for, and asks for nothing at its end.
pub proof fn push_takes_answers_to_its_action<S, D, W>(
    session: PushSession<S, D, W>,
    action: Option<PushAction<'_, S, D, W>>,
    event: PushEvent<S, D, W>,
)
    requires
        session.asks_for(action),
    ensures
        session.stage.expects(event) == match action {
            Some(PushAction::RemoteOptions(_)) => event is RemoteOptions,
            Some(PushAction::MapPathToUri(_)) => event is PathMapped,
            Some(PushAction::WasmPath(_)) => event is WasmPath,
            Some(PushAction::Push { .. }) => event is Pushed,
            Some(PushAction::Print(_)) => event is Printed,
            None => false,
        },
        action is None == (session.stage is Done || session.stage is Failed),
{
}

/// An argument of a push that is not there stops it where its value is needed, and not before: the
/// policy behind the remote options, and the URI behind the file.
pub proof fn push_stops_where_an_argument_is_missing<S, D, W>(
    args: PushArgs,
    remote: RemoteOptions<S, D>,
    policy_uri: String,
    path: W,
)
    ensures
        ({
            let s1 = PushSession::<S, D, W>::started(args).next(
                PushEvent::RemoteOptions(Ok(remote)),
            );
            let s3 = s1.next(PushEvent::PathMapped(Ok(policy_uri))).next(
                PushEvent::WasmPath(Ok(path)),
            );
            &&& args.policy.content is Absent ==> s1.stage == (PushStage::<S, D, W>::Failed {
                failure: Failure::Argument(ArgError::Missing(args.policy.id)),
            })
            &&& (args.policy.content matches Content::Values(values) && values@.len() > 0
                && args.uri.content is Absent) ==> s3.stage == (PushStage::<S, D, W>::Failed {
                failure: Failure::Argument(ArgError::Missing(args.uri.id)),
            })
        }),
{
}

/// An argument of a push that cannot be read never passes for one that is not there: the push fails
/// with it, once it is needed.
pub proof fn unreadable_push_argument_is_no_absent_one<S, D, W>(
    session: PushSession<S, D, W>,
    remote: RemoteOptions<S, D>,
    path: W,
    immutable_ref: String,
)
    ensures
        session.stage is Remote && (session.args.policy.content is Unknown
            || session.args.policy.content is Foreign) ==> session.next(
            PushEvent::RemoteOptions(Ok(remote)),
        ).stage == (PushStage::<S, D, W>::Failed {
            failure: Failure::Argument(ArgError::Unreadable(session.args.policy.id)),
        }),
        session.stage is WasmPath && (session.args.uri.content is Unknown
            || session.args.uri.content is Foreign) ==> session.next(
            PushEvent::WasmPath(Ok(path)),
        ).stage == (PushStage::<S, D, W>::Failed {
            failure: Failure::Argument(ArgError::Unreadable(session.args.uri.id)),
        }),
        (session.args.uri.content matches Content::Values(values) && values@.len() > 0
            && session.stage is WasmPath && session.args.force.content is Unknown) ==> session.next(
            PushEvent::WasmPath(Ok(path)),
        ).stage == (PushStage::<S, D, W>::Failed {
            failure: Failure::Argument(ArgError::Unreadable(session.args.force.id)),
        }),
        session.stage is Push && (session.args.output.content is Unknown
            || session.args.output.content is Foreign) ==> session.next(
            PushEvent::Pushed(Ok(immutable_ref)),
        ).stage == (PushStage::<S, D, W>::Failed {
            failure: Failure::Argument(ArgError::Unreadable(session.args.output.id)),
        }),
{
}

} // verus!
