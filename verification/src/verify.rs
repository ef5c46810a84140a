//! Verifying a policy in its registry.

use crate::failure;
use crate::failure::Failure;
use crate::fulcio::{FulcioAndRekorData, FulcioArgs, FulcioArgsView};
use crate::remote::{RemoteArgs, RemoteArgsView, RemoteOptions};
use crate::signature::VerificationConfig;
use crate::verification::{VerificationArgs, VerificationArgsView};
use vstd::prelude::*;

verus! {

/// What the command line says on a verification.
pub struct VerifyArgs {
    pub uri: String,
    pub remote: RemoteArgs,
    pub verification: VerificationArgs,
    pub fulcio: FulcioArgs,
}

pub struct VerifyArgsView {
    pub uri: Seq<char>,
    pub remote: RemoteArgsView,
    pub verification: VerificationArgsView,
    pub fulcio: FulcioArgsView,
}

impl View for VerifyArgs {
    type V = VerifyArgsView;

    open spec fn view(&self) -> VerifyArgsView {
        VerifyArgsView {
            uri: self.uri@,
            remote: self.remote@,
            verification: self.verification@,
            fulcio: self.fulcio@,
        }
    }
}

/// How far a verification is.
pub enum VerifyStage<S, D, R> {
    /// The options of remote servers are to be had.
    Remote,
    /// The verification options are to be had.
    Options { remote: RemoteOptions<S, D> },
    /// The data for the verification is to be had.
    Fulcio { remote: RemoteOptions<S, D>, options: VerificationConfig },
    /// The policy is to be verified.
    Verify {
        remote: RemoteOptions<S, D>,
        options: VerificationConfig,
        fulcio: Option<FulcioAndRekorData<R>>,
    },
    Done,
    Failed { failure: Failure },
}

/// A verification under way.
pub struct VerifySession<S, D, R> {
    pub args: VerifyArgs,
    pub stage: VerifyStage<S, D, R>,
}

/// What is to be done next.
pub enum VerifyAction<'a, S, D, R> {
    RemoteOptions(&'a RemoteArgs),
    VerificationOptions(&'a VerificationArgs),
    FulcioAndRekorData(&'a FulcioArgs),
    Verify {
        uri: &'a String,
        remote: &'a RemoteOptions<S, D>,
        options: &'a VerificationConfig,
        fulcio: &'a Option<FulcioAndRekorData<R>>,
    },
}

/// What came of an action. An error is the text of its cause.
pub enum VerifyEvent<S, D, R> {
    RemoteOptions(Result<RemoteOptions<S, D>, String>),
    VerificationOptions(Result<Option<VerificationConfig>, String>),
    FulcioAndRekorData(Result<Option<FulcioAndRekorData<R>>, String>),
    Verified(Result<String, String>),
}

impl<S, D, R> VerifyStage<S, D, R> {
    /// The end of a verification that something outside has stopped.
    pub open spec fn stopped(cause: String) -> Self {
        VerifyStage::Failed { failure: Failure::Outside(cause) }
    }

    /// The stage behind `event`, in a verification with these arguments.
    pub open spec fn next(self, args: VerifyArgs, event: VerifyEvent<S, D, R>) -> Self {
        match (self, event) {
            (VerifyStage::Remote, VerifyEvent::RemoteOptions(Ok(remote))) => VerifyStage::Options {
                remote,
            },
            (
                VerifyStage::Options { remote },
                VerifyEvent::VerificationOptions(Ok(Some(options))),
            ) => VerifyStage::Fulcio { remote, options },
            (
                VerifyStage::Options { .. },
                VerifyEvent::VerificationOptions(Ok(None)),
            ) => VerifyStage::Failed { failure: Failure::NoVerificationOptions },
            (
                VerifyStage::Fulcio { remote, options },
                VerifyEvent::FulcioAndRekorData(Ok(fulcio)),
            ) => VerifyStage::Verify { remote, options, fulcio },
            (VerifyStage::Verify { .. }, VerifyEvent::Verified(Ok(_))) => VerifyStage::Done,
            (VerifyStage::Verify { .. }, VerifyEvent::Verified(Err(cause))) => VerifyStage::Failed {
                failure: Failure::NotValidated { uri: args.uri, cause },
            },
            (_, VerifyEvent::RemoteOptions(Err(cause))) => Self::stopped(cause),
            (_, VerifyEvent::VerificationOptions(Err(cause))) => Self::stopped(cause),
            (_, VerifyEvent::FulcioAndRekorData(Err(cause))) => Self::stopped(cause),
            _ => self,
        }
    }

    /// Whether `event` tells what came of this stage's action.
    pub open spec fn expects(self, event: VerifyEvent<S, D, R>) -> bool {
        match self {
            VerifyStage::Remote => event is RemoteOptions,
            VerifyStage::Options { .. } => event is VerificationOptions,
            VerifyStage::Fulcio { .. } => event is FulcioAndRekorData,
            VerifyStage::Verify { .. } => event is Verified,
            VerifyStage::Done => false,
            VerifyStage::Failed { .. } => false,
        }
    }

    /// How many actions may still come.
    pub open spec fn steps_left(self) -> nat {
        match self {
            VerifyStage::Remote => 4,
            VerifyStage::Options { .. } => 3,
            VerifyStage::Fulcio { .. } => 2,
            VerifyStage::Verify { .. } => 1,
            VerifyStage::Done => 0,
            VerifyStage::Failed { .. } => 0,
        }
    }
}

impl<S, D, R> VerifySession<S, D, R> {
    /// A verification before its first action.
    pub open spec fn started(args: VerifyArgs) -> Self {
        VerifySession { args, stage: VerifyStage::Remote }
    }

    /// The verification behind `event`.
    pub open spec fn next(self, event: VerifyEvent<S, D, R>) -> Self {
        VerifySession { args: self.args, stage: self.stage.next(self.args, event) }
    }

    /// What is to be done in this stage; nothing at the end.
    pub open spec fn next_action(self) -> Option<VerifyAction<'static, S, D, R>> {
        match self.stage {
            VerifyStage::Remote => Some(VerifyAction::RemoteOptions(&self.args.remote)),
            VerifyStage::Options { .. } => Some(
                VerifyAction::VerificationOptions(&self.args.verification),
            ),
            VerifyStage::Fulcio { .. } => Some(VerifyAction::FulcioAndRekorData(&self.args.fulcio)),
            VerifyStage::Verify { remote, options, fulcio } => Some(
                VerifyAction::Verify {
                    uri: &self.args.uri,
                    remote: &remote,
                    options: &options,
                    fulcio: &fulcio,
                },
            ),
            VerifyStage::Done => None,
            VerifyStage::Failed { .. } => None,
        }
    }

    /// Starts a verification.
    pub fn new(args: VerifyArgs) -> (res: Self)
        ensures
            res == Self::started(args),
    {
        VerifySession { args, stage: VerifyStage::Remote }
    }

    /// What is to be done next; nothing at the end.
    pub fn action(&self) -> (res: Option<VerifyAction<'_, S, D, R>>)
        ensures
            res == self.next_action(),
    {
        match &self.stage {
            VerifyStage::Remote => Some(VerifyAction::RemoteOptions(&self.args.remote)),
            VerifyStage::Options { .. } => Some(
                VerifyAction::VerificationOptions(&self.args.verification),
            ),
            VerifyStage::Fulcio { .. } => Some(VerifyAction::FulcioAndRekorData(&self.args.fulcio)),
            VerifyStage::Verify { remote, options, fulcio } => Some(
                VerifyAction::Verify { uri: &self.args.uri, remote, options, fulcio },
            ),
            VerifyStage::Done => None,
            VerifyStage::Failed { .. } => None,
        }
    }

    /// Tells whether `event` tells what came of this stage's action.
    pub fn awaits(&self, event: &VerifyEvent<S, D, R>) -> (res: bool)
        ensures
            res == self.stage.expects(*event),
    {
        match (&self.stage, event) {
            (VerifyStage::Remote, VerifyEvent::RemoteOptions(_)) => true,
            (VerifyStage::Options { .. }, VerifyEvent::VerificationOptions(_)) => true,
            (VerifyStage::Fulcio { .. }, VerifyEvent::FulcioAndRekorData(_)) => true,
            (VerifyStage::Verify { .. }, VerifyEvent::Verified(_)) => true,
            _ => false,
        }
    }

    /// Takes in what came of this stage's action.
    pub fn advance(self, event: VerifyEvent<S, D, R>) -> (res: Self)
        requires
            self.stage.expects(event),
        ensures
            res == self.next(event),
    {
        let VerifySession { args, stage } = self;
        let stage = match (stage, event) {
            (VerifyStage::Remote, VerifyEvent::RemoteOptions(Ok(remote))) => VerifyStage::Options {
                remote,
            },
            (
                VerifyStage::Options { remote },
                VerifyEvent::VerificationOptions(Ok(Some(options))),
            ) => VerifyStage::Fulcio { remote, options },
            (
                VerifyStage::Options { .. },
                VerifyEvent::VerificationOptions(Ok(None)),
            ) => VerifyStage::Failed { failure: Failure::NoVerificationOptions },
            (
                VerifyStage::Fulcio { remote, options },
                VerifyEvent::FulcioAndRekorData(Ok(fulcio)),
            ) => VerifyStage::Verify { remote, options, fulcio },
            (VerifyStage::Verify { .. }, VerifyEvent::Verified(Ok(_))) => VerifyStage::Done,
            (VerifyStage::Verify { .. }, VerifyEvent::Verified(Err(cause))) => VerifyStage::Failed {
                failure: Failure::NotValidated { uri: args.uri.clone(), cause },
            },
            (_, VerifyEvent::RemoteOptions(Err(cause))) => stop(cause),
            (_, VerifyEvent::VerificationOptions(Err(cause))) => stop(cause),
            (_, VerifyEvent::FulcioAndRekorData(Err(cause))) => stop(cause),
            (stage, _) => stage,
        };
        VerifySession { args, stage }
    }
}

fn stop<S, D, R>(cause: String) -> (res: VerifyStage<S, D, R>)
    ensures
        res == VerifyStage::<S, D, R>::stopped(cause),
{
    VerifyStage::Failed { failure: Failure::Outside(cause) }
}

/// What the outside answers to the actions of one verification.
pub struct VerifyWorld<S, D, R> {
    pub remote: Result<RemoteOptions<S, D>, String>,
    pub options: Result<Option<VerificationConfig>, String>,
    pub fulcio: Result<Option<FulcioAndRekorData<R>>, String>,
    pub verified: Result<String, String>,
}

impl<S, D, R> VerifyWorld<S, D, R> {
    /// What comes of the action of a stage.
    pub open spec fn answer(self, stage: VerifyStage<S, D, R>) -> VerifyEvent<S, D, R> {
        match stage {
            VerifyStage::Options { .. } => VerifyEvent::VerificationOptions(self.options),
            VerifyStage::Fulcio { .. } => VerifyEvent::FulcioAndRekorData(self.fulcio),
            VerifyStage::Verify { .. } => VerifyEvent::Verified(self.verified),
            _ => VerifyEvent::RemoteOptions(self.remote),
        }
    }

    /// Why a verification with these arguments fails, if it does: the first of these that
    /// applies.
    pub open spec fn failure(self, args: VerifyArgs) -> Option<Failure> {
        if self.remote is Err {
            failure::cause_of(self.remote)
        } else if self.options is Err {
            failure::cause_of(self.options)
        } else if self.options->Ok_0 is None {
            Some(Failure::NoVerificationOptions)
        } else if self.fulcio is Err {
            failure::cause_of(self.fulcio)
        } else if self.verified is Err {
            Some(Failure::NotValidated { uri: args.uri, cause: self.verified->Err_0 })
        } else {
            None
        }
    }
}

impl<S, D, R> VerifySession<S, D, R> {
    /// What the verification comes to in `world`.
    pub open spec fn run(self, world: VerifyWorld<S, D, R>) -> Self
        decreases self.stage.steps_left(),
    {
        if self.stage is Done || self.stage is Failed {
            self
        } else {
            self.next(world.answer(self.stage)).run(world)
        }
    }
}

/// Every answer brings a verification closer to its end.
pub proof fn verify_ends<S, D, R>(session: VerifySession<S, D, R>, event: VerifyEvent<S, D, R>)
    requires
        session.stage.expects(event),
    ensures
        session.next(event).stage.steps_left() < session.stage.steps_left(),
{
}

/// A verification ends well only where there are verification options and no action fails.
pub proof fn verify_comes_to_its_outcome<S, D, R>(args: VerifyArgs, world: VerifyWorld<S, D, R>)
    ensures
        VerifySession::started(args).run(world).stage == match world.failure(args) {
            None => VerifyStage::<S, D, R>::Done,
            Some(failure) => VerifyStage::<S, D, R>::Failed { failure },
        },
{
    reveal_with_fuel(VerifySession::run, 5);
}

/// Without verification options a verification never ends well.
pub proof fn verify_needs_options<S, D, R>(args: VerifyArgs, world: VerifyWorld<S, D, R>)
    requires
        !(world.options matches Ok(Some(_))),
    ensures
        VerifySession::started(args).run(world).stage is Failed,
{
    verify_comes_to_its_outcome(args, world);
}

/// A verification asks for one thing after the other, and the policy is verified with the very
/// options, remote options and data that were had.
pub proof fn verification_hands_on_its_answers<S, D, R>(
    args: VerifyArgs,
    remote: RemoteOptions<S, D>,
    options: VerificationConfig,
    fulcio: Option<FulcioAndRekorData<R>>,
    digest: String,
)
    ensures
        ({
            let s0 = VerifySession::<S, D, R>::started(args);
            let s1 = s0.next(VerifyEvent::RemoteOptions(Ok(remote)));
            let s2 = s1.next(VerifyEvent::VerificationOptions(Ok(Some(options))));
            let s3 = s2.next(VerifyEvent::FulcioAndRekorData(Ok(fulcio)));
            &&& s0.next_action() == Some(VerifyAction::<S, D, R>::RemoteOptions(&args.remote))
            &&& s1.next_action() == Some(
                VerifyAction::<S, D, R>::VerificationOptions(&args.verification),
            )
            &&& s1.next(VerifyEvent::VerificationOptions(Ok(None))).stage == (VerifyStage::<
                S,
                D,
                R,
            >::Failed { failure: Failure::NoVerificationOptions })
            &&& s2.next_action() == Some(VerifyAction::<S, D, R>::FulcioAndRekorData(&args.fulcio))
            &&& s3.next_action() matches Some(VerifyAction::Verify { uri, remote: r, options: o, fulcio: f })
            &&& *uri == args.uri
            &&& *r == remote
            &&& *o == options
            &&& *f == fulcio
            &&& s3.next(VerifyEvent::Verified(Ok(digest))).stage is Done
        }),
{
}

/// A verification that an answer stops tells the cause of that answer, and a refused policy is told
/// with its URI.
pub proof fn verification_tells_the_cause<S, D, R>(session: VerifySession<S, D, R>, cause: String)
    ensures
        session.next_action() matches Some(VerifyAction::RemoteOptions(_)) ==> session.next(
            VerifyEvent::RemoteOptions(Err(cause)),
        ).stage == (VerifyStage::<S, D, R>::Failed { failure: Failure::Outside(cause) }),
        session.next_action() matches Some(VerifyAction::VerificationOptions(_)) ==> session.next(
            VerifyEvent::VerificationOptions(Err(cause)),
        ).stage == (VerifyStage::<S, D, R>::Failed { failure: Failure::Outside(cause) }),
        session.next_action() matches Some(VerifyAction::FulcioAndRekorData(_)) ==> session.next(
            VerifyEvent::FulcioAndRekorData(Err(cause)),
        ).stage == (VerifyStage::<S, D, R>::Failed { failure: Failure::Outside(cause) }),
        session.next_action() matches Some(VerifyAction::Verify { .. }) ==> session.next(
            VerifyEvent::Verified(Err(cause)),
        ).stage == (VerifyStage::<S, D, R>::Failed {
            failure: Failure::NotValidated { uri: session.args.uri, cause },
        }),
{
}

/// A verification takes in exactly the answers to what it asks for, and asks for nothing at its
/// end.
pub proof fn verification_takes_answers_to_its_action<S, D, R>(
    session: VerifySession<S, D, R>,
    event: VerifyEvent<S, D, R>,
)
    ensures
        session.stage.expects(event) == match session.next_action() {
            Some(VerifyAction::RemoteOptions(_)) => event is RemoteOptions,
            Some(VerifyAction::VerificationOptions(_)) => event is VerificationOptions,
            Some(VerifyAction::FulcioAndRekorData(_)) => event is FulcioAndRekorData,
            Some(VerifyAction::Verify { .. }) => event is Verified,
            None => false,
        },
        session.next_action() is None == (session.stage is Done || session.stage is Failed),
{
}

} // verus!
