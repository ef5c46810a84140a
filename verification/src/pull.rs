//! Pulling a policy, with a verification before and after where one is asked for.

use crate::failure;
use crate::failure::Failure;
use crate::fulcio::{FulcioAndRekorData, FulcioArgs, FulcioArgsView};
use crate::remote::{RemoteArgs, RemoteArgsView, RemoteOptions};
use crate::signature::VerificationConfig;
use crate::verification::{VerificationArgs, VerificationArgsView};
use vstd::prelude::*;

verus! {

/// What the command line says on a pull.
pub struct PullArgs {
    pub uri: String,
    pub output_path: Option<String>,
    pub remote: RemoteArgs,
    pub verification: VerificationArgs,
    pub fulcio: FulcioArgs,
}

pub struct PullArgsView {
    pub uri: Seq<char>,
    pub output_path: Option<Seq<char>>,
    pub remote: RemoteArgsView,
    pub verification: VerificationArgsView,
    pub fulcio: FulcioArgsView,
}

impl View for PullArgs {
    type V = PullArgsView;

    open spec fn view(&self) -> PullArgsView {
        PullArgsView {
            uri: self.uri@,
            output_path: self.output_path.deep_view(),
            remote: self.remote@,
            verification: self.verification@,
            fulcio: self.fulcio@,
        }
    }
}

/// Where a pulled policy goes.
pub enum PullDestination<'a> {
    MainStore,
    LocalFile(&'a String),
}

/// How far a pull is. `P` is a policy on the local machine.
#[allow(inconsistent_fields)]
pub enum PullStage<S, D, R, P> {
    /// The options of remote servers are to be had.
    Remote,
    /// The verification options are to be had.
    Options { remote: RemoteOptions<S, D> },
    /// The data for the verification is to be had.
    FulcioForPolicy { remote: RemoteOptions<S, D>, options: VerificationConfig },
    /// The policy is to be verified in its registry.
    Verify {
        remote: RemoteOptions<S, D>,
        options: VerificationConfig,
        fulcio: Option<FulcioAndRekorData<R>>,
    },
    /// The policy is to be pulled. With a verification, its digest is known.
    Pull { remote: RemoteOptions<S, D>, digest: Option<String> },
    /// The data for the check of the pulled file is to be had.
    FulcioForFile { remote: RemoteOptions<S, D>, digest: String, policy: P },
    /// The pulled file is to be held against the verified digest.
    Checksum {
        remote: RemoteOptions<S, D>,
        digest: String,
        policy: P,
        fulcio: Option<FulcioAndRekorData<R>>,
    },
    Done,
    Failed { failure: Failure },
}

/// A pull under way.
pub struct PullSession<S, D, R, P> {
    pub args: PullArgs,
    pub stage: PullStage<S, D, R, P>,
}

/// What is to be done next.
pub enum PullAction<'a, S, D, R, P> {
    RemoteOptions(&'a RemoteArgs),
    VerificationOptions(&'a VerificationArgs),
    FulcioAndRekorData(&'a FulcioArgs),
    Verify {
        uri: &'a String,
        remote: &'a RemoteOptions<S, D>,
        options: &'a VerificationConfig,
        fulcio: &'a Option<FulcioAndRekorData<R>>,
    },
    Pull {
        uri: &'a String,
        remote: &'a RemoteOptions<S, D>,
        destination: PullDestination<'a>,
    },
    VerifyLocalChecksum {
        policy: &'a P,
        remote: &'a RemoteOptions<S, D>,
        digest: &'a String,
        fulcio: &'a Option<FulcioAndRekorData<R>>,
    },
}

/// What came of an action. An error is the text of its cause.
pub enum PullEvent<S, D, R, P> {
    RemoteOptions(Result<RemoteOptions<S, D>, String>),
    VerificationOptions(Result<Option<VerificationConfig>, String>),
    FulcioAndRekorData(Result<Option<FulcioAndRekorData<R>>, String>),
    Verified(Result<String, String>),
    Pulled(Result<P, String>),
    LocalChecksumVerified(Result<(), String>),
}

impl PullArgs {
    /// Where the policy goes.
    pub open spec fn destination_of(self) -> PullDestination<'static> {
        match self.output_path {
            Some(path) => PullDestination::LocalFile(&path),
            None => PullDestination::MainStore,
        }
    }
}

impl<S, D, R, P> PullStage<S, D, R, P> {
    /// The end of a pull that something outside has stopped.
    pub open spec fn stopped(cause: String) -> Self {
        PullStage::Failed { failure: Failure::Outside(cause) }
    }

    /// The stage behind `event`, in a pull with these arguments.
    pub open spec fn next(self, args: PullArgs, event: PullEvent<S, D, R, P>) -> Self {
        match (self, event) {
            (PullStage::Remote, PullEvent::RemoteOptions(Ok(remote))) => PullStage::Options {
                remote,
            },
            (
                PullStage::Options { remote },
                PullEvent::VerificationOptions(Ok(Some(options))),
            ) => PullStage::FulcioForPolicy { remote, options },
            (
                PullStage::Options { remote },
                PullEvent::VerificationOptions(Ok(None)),
            ) => PullStage::Pull { remote, digest: None },
            (
                PullStage::FulcioForPolicy { remote, options },
                PullEvent::FulcioAndRekorData(Ok(fulcio)),
            ) => PullStage::Verify { remote, options, fulcio },
            (PullStage::Verify { remote, .. }, PullEvent::Verified(Ok(digest))) => PullStage::Pull {
                remote,
                digest: Some(digest),
            },
            (
                PullStage::Verify { .. },
                PullEvent::Verified(Err(cause)),
            ) => PullStage::Failed { failure: Failure::NotValidated { uri: args.uri, cause } },
            (
                PullStage::Pull { remote, digest: Some(digest) },
                PullEvent::Pulled(Ok(policy)),
            ) => PullStage::FulcioForFile { remote, digest, policy },
            (PullStage::Pull { digest: None, .. }, PullEvent::Pulled(Ok(_))) => PullStage::Done,
            (
                PullStage::FulcioForFile { remote, digest, policy },
                PullEvent::FulcioAndRekorData(Ok(fulcio)),
            ) => PullStage::Checksum { remote, digest, policy, fulcio },
            (
                PullStage::Checksum { .. },
                PullEvent::LocalChecksumVerified(Ok(())),
            ) => PullStage::Done,
            (_, PullEvent::RemoteOptions(Err(cause))) => Self::stopped(cause),
            (_, PullEvent::VerificationOptions(Err(cause))) => Self::stopped(cause),
            (_, PullEvent::FulcioAndRekorData(Err(cause))) => Self::stopped(cause),
            (_, PullEvent::Pulled(Err(cause))) => Self::stopped(cause),
            (_, PullEvent::LocalChecksumVerified(Err(cause))) => Self::stopped(cause),
            _ => self,
        }
    }

    /// Whether `event` tells what came of this stage's action.
    pub open spec fn expects(self, event: PullEvent<S, D, R, P>) -> bool {
        match self {
            PullStage::Remote => event is RemoteOptions,
            PullStage::Options { .. } => event is VerificationOptions,
            PullStage::FulcioForPolicy { .. } => event is FulcioAndRekorData,
            PullStage::Verify { .. } => event is Verified,
            PullStage::Pull { .. } => event is Pulled,
            PullStage::FulcioForFile { .. } => event is FulcioAndRekorData,
            PullStage::Checksum { .. } => event is LocalChecksumVerified,
            PullStage::Done => false,
            PullStage::Failed { .. } => false,
        }
    }

    /// How many actions may still come.
    pub open spec fn steps_left(self) -> nat {
        match self {
            PullStage::Remote => 7,
            PullStage::Options { .. } => 6,
            PullStage::FulcioForPolicy { .. } => 5,
            PullStage::Verify { .. } => 4,
            PullStage::Pull { .. } => 3,
            PullStage::FulcioForFile { .. } => 2,
            PullStage::Checksum { .. } => 1,
            PullStage::Done => 0,
            PullStage::Failed { .. } => 0,
        }
    }
}

impl<S, D, R, P> PullSession<S, D, R, P> {
    /// A pull before its first action.
    pub open spec fn started(args: PullArgs) -> Self {
        PullSession { args, stage: PullStage::Remote }
    }

    /// The pull behind `event`.
    pub open spec fn next(self, event: PullEvent<S, D, R, P>) -> Self {
        PullSession { args: self.args, stage: self.stage.next(self.args, event) }
    }

    /// What is to be done in this stage; nothing at the end.
    pub open spec fn next_action(self) -> Option<PullAction<'static, S, D, R, P>> {
        match self.stage {
            PullStage::Remote => Some(PullAction::RemoteOptions(&self.args.remote)),
            PullStage::Options { .. } => Some(
                PullAction::VerificationOptions(&self.args.verification),
            ),
            PullStage::FulcioForPolicy { .. } => Some(
                PullAction::FulcioAndRekorData(&self.args.fulcio),
            ),
            PullStage::Verify { remote, options, fulcio } => Some(
                PullAction::Verify {
                    uri: &self.args.uri,
                    remote: &remote,
                    options: &options,
                    fulcio: &fulcio,
                },
            ),
            PullStage::Pull { remote, .. } => Some(
                PullAction::Pull {
                    uri: &self.args.uri,
                    remote: &remote,
                    destination: self.args.destination_of(),
                },
            ),
            PullStage::FulcioForFile { .. } => Some(
                PullAction::FulcioAndRekorData(&self.args.fulcio),
            ),
            PullStage::Checksum { remote, digest, policy, fulcio } => Some(
                PullAction::VerifyLocalChecksum {
                    policy: &policy,
                    remote: &remote,
                    digest: &digest,
                    fulcio: &fulcio,
                },
            ),
            PullStage::Done => None,
            PullStage::Failed { .. } => None,
        }
    }

    /// Starts a pull.
    pub fn new(args: PullArgs) -> (res: Self)
        ensures
            res == Self::started(args),
    {
        PullSession { args, stage: PullStage::Remote }
    }

    /// What is to be done next; nothing at the end.
    pub fn action(&self) -> (res: Option<PullAction<'_, S, D, R, P>>)
        ensures
            res == self.next_action(),
    {
        match &self.stage {
            PullStage::Remote => Some(PullAction::RemoteOptions(&self.args.remote)),
            PullStage::Options { .. } => Some(
                PullAction::VerificationOptions(&self.args.verification),
            ),
            PullStage::FulcioForPolicy { .. } => Some(
                PullAction::FulcioAndRekorData(&self.args.fulcio),
            ),
            PullStage::Verify { remote, options, fulcio } => Some(
                PullAction::Verify { uri: &self.args.uri, remote, options, fulcio },
            ),
            PullStage::Pull { remote, .. } => Some(
                PullAction::Pull {
                    uri: &self.args.uri,
                    remote,
                    destination: match &self.args.output_path {
                        Some(path) => PullDestination::LocalFile(path),
                        None => PullDestination::MainStore,
                    },
                },
            ),
            PullStage::FulcioForFile { .. } => Some(
                PullAction::FulcioAndRekorData(&self.args.fulcio),
            ),
            PullStage::Checksum { remote, digest, policy, fulcio } => Some(
                PullAction::VerifyLocalChecksum { policy, remote, digest, fulcio },
            ),
            PullStage::Done => None,
            PullStage::Failed { .. } => None,
        }
    }

    /// Tells whether `event` tells what came of this stage's action.
    pub fn awaits(&self, event: &PullEvent<S, D, R, P>) -> (res: bool)
        ensures
            res == self.stage.expects(*event),
    {
        match (&self.stage, event) {
            (PullStage::Remote, PullEvent::RemoteOptions(_)) => true,
            (PullStage::Options { .. }, PullEvent::VerificationOptions(_)) => true,
            (PullStage::FulcioForPolicy { .. }, PullEvent::FulcioAndRekorData(_)) => true,
            (PullStage::Verify { .. }, PullEvent::Verified(_)) => true,
            (PullStage::Pull { .. }, PullEvent::Pulled(_)) => true,
            (PullStage::FulcioForFile { .. }, PullEvent::FulcioAndRekorData(_)) => true,
            (PullStage::Checksum { .. }, PullEvent::LocalChecksumVerified(_)) => true,
            _ => false,
        }
    }

    /// Takes in what came of this stage's action.
    pub fn advance(self, event: PullEvent<S, D, R, P>) -> (res: Self)
        requires
            self.stage.expects(event),
        ensures
            res == self.next(event),
    {
        let PullSession { args, stage } = self;
        let stage = match (stage, event) {
            (PullStage::Remote, PullEvent::RemoteOptions(Ok(remote))) => PullStage::Options {
                remote,
            },
            (
                PullStage::Options { remote },
                PullEvent::VerificationOptions(Ok(Some(options))),
            ) => PullStage::FulcioForPolicy { remote, options },
            (
                PullStage::Options { remote },
                PullEvent::VerificationOptions(Ok(None)),
            ) => PullStage::Pull { remote, digest: None },
            (
                PullStage::FulcioForPolicy { remote, options },
                PullEvent::FulcioAndRekorData(Ok(fulcio)),
            ) => PullStage::Verify { remote, options, fulcio },
            (PullStage::Verify { remote, .. }, PullEvent::Verified(Ok(digest))) => PullStage::Pull {
                remote,
                digest: Some(digest),
            },
            (PullStage::Verify { .. }, PullEvent::Verified(Err(cause))) => PullStage::Failed {
                failure: Failure::NotValidated { uri: args.uri.clone(), cause },
            },
            (
                PullStage::Pull { remote, digest: Some(digest) },
                PullEvent::Pulled(Ok(policy)),
            ) => PullStage::FulcioForFile { remote, digest, policy },
            (PullStage::Pull { digest: None, .. }, PullEvent::Pulled(Ok(_))) => PullStage::Done,
            (
                PullStage::FulcioForFile { remote, digest, policy },
                PullEvent::FulcioAndRekorData(Ok(fulcio)),
            ) => PullStage::Checksum { remote, digest, policy, fulcio },
            (
                PullStage::Checksum { .. },
                PullEvent::LocalChecksumVerified(Ok(())),
            ) => PullStage::Done,
            (_, PullEvent::RemoteOptions(Err(cause))) => stop(cause),
            (_, PullEvent::VerificationOptions(Err(cause))) => stop(cause),
            (_, PullEvent::FulcioAndRekorData(Err(cause))) => stop(cause),
            (_, PullEvent::Pulled(Err(cause))) => stop(cause),
            (_, PullEvent::LocalChecksumVerified(Err(cause))) => stop(cause),
            (stage, _) => stage,
        };
        PullSession { args, stage }
    }
}

fn stop<S, D, R, P>(cause: String) -> (res: PullStage<S, D, R, P>)
    ensures
        res == PullStage::<S, D, R, P>::stopped(cause),
{
    PullStage::Failed { failure: Failure::Outside(cause) }
}

/// What the outside answers to the actions of one pull.
pub struct PullWorld<S, D, R, P> {
    pub remote: Result<RemoteOptions<S, D>, String>,
    pub options: Result<Option<VerificationConfig>, String>,
    pub fulcio_before: Result<Option<FulcioAndRekorData<R>>, String>,
    pub verified: Result<String, String>,
    pub pulled: Result<P, String>,
    pub fulcio_after: Result<Option<FulcioAndRekorData<R>>, String>,
    pub checksum: Result<(), String>,
}

impl<S, D, R, P> PullWorld<S, D, R, P> {
    /// What comes of the action of a stage.
    pub open spec fn answer(self, stage: PullStage<S, D, R, P>) -> PullEvent<S, D, R, P> {
        match stage {
            PullStage::Options { .. } => PullEvent::VerificationOptions(self.options),
            PullStage::FulcioForPolicy { .. } => PullEvent::FulcioAndRekorData(self.fulcio_before),
            PullStage::Verify { .. } => PullEvent::Verified(self.verified),
            PullStage::Pull { .. } => PullEvent::Pulled(self.pulled),
            PullStage::FulcioForFile { .. } => PullEvent::FulcioAndRekorData(self.fulcio_after),
            PullStage::Checksum { .. } => PullEvent::LocalChecksumVerified(self.checksum),
            _ => PullEvent::RemoteOptions(self.remote),
        }
    }

    /// Whether the policy is to be verified.
    pub open spec fn verifies(self) -> bool {
        self.options matches Ok(Some(_))
    }

    /// Why a pull with these arguments fails, if it does: the first of these that applies.
    pub open spec fn failure(self, args: PullArgs) -> Option<Failure> {
        if self.remote is Err {
            failure::cause_of(self.remote)
        } else if self.options is Err {
            failure::cause_of(self.options)
        } else if self.verifies() && self.fulcio_before is Err {
            failure::cause_of(self.fulcio_before)
        } else if self.verifies() && self.verified is Err {
            Some(Failure::NotValidated { uri: args.uri, cause: self.verified->Err_0 })
        } else if self.pulled is Err {
            failure::cause_of(self.pulled)
        } else if self.verifies() && self.fulcio_after is Err {
            failure::cause_of(self.fulcio_after)
        } else if self.verifies() {
            failure::cause_of(self.checksum)
        } else {
            None
        }
    }
}

impl<S, D, R, P> PullSession<S, D, R, P> {
    /// What the pull comes to in `world`.
    pub open spec fn run(self, world: PullWorld<S, D, R, P>) -> Self
        decreases self.stage.steps_left(),
    {
        if self.stage is Done || self.stage is Failed {
            self
        } else {
            self.next(world.answer(self.stage)).run(world)
        }
    }

    /// The pull after all of `events`.
    pub open spec fn after(self, events: Seq<PullEvent<S, D, R, P>>) -> Self
        decreases events.len(),
    {
        if events.len() == 0 {
            self
        } else {
            self.after(events.drop_last()).next(events.last())
        }
    }

    /// Whether each of `events` tells what came of the action before it.
    pub open spec fn accepts(self, events: Seq<PullEvent<S, D, R, P>>) -> bool
        decreases events.len(),
    {
        events.len() > 0 ==> {
            &&& self.accepts(events.drop_last())
            &&& self.after(events.drop_last()).stage.expects(events.last())
        }
    }
}

/// Every answer brings a pull closer to its end.
pub proof fn pull_ends<S, D, R, P>(
    session: PullSession<S, D, R, P>,
    event: PullEvent<S, D, R, P>,
)
    requires
        session.stage.expects(event),
    ensures
        session.next(event).stage.steps_left() < session.stage.steps_left(),
{
}

/// A pull ends well unless one of its actions fails, and then with that action's failure.
pub proof fn pull_comes_to_its_outcome<S, D, R, P>(args: PullArgs, world: PullWorld<S, D, R, P>)
    ensures
        PullSession::started(args).run(world).stage == match world.failure(args) {
            None => PullStage::<S, D, R, P>::Done,
            Some(failure) => PullStage::<S, D, R, P>::Failed { failure },
        },
{
    reveal_with_fuel(PullSession::run, 8);
}

/// The failure that an event reports, in a pull with these arguments.
pub open spec fn reported<S, D, R, P>(args: PullArgs, event: PullEvent<S, D, R, P>) -> Option<
    Failure,
> {
    match event {
        PullEvent::RemoteOptions(answer) => failure::cause_of(answer),
        PullEvent::VerificationOptions(answer) => failure::cause_of(answer),
        PullEvent::FulcioAndRekorData(answer) => failure::cause_of(answer),
        PullEvent::Verified(Err(cause)) => Some(Failure::NotValidated { uri: args.uri, cause }),
        PullEvent::Verified(Ok(_)) => None,
        PullEvent::Pulled(answer) => failure::cause_of(answer),
        PullEvent::LocalChecksumVerified(answer) => failure::cause_of(answer),
    }
}

/// Whether `events` begin with the options of remote servers, verification options, the data for
/// the verification, and a verification that gave `digest`.
pub open spec fn verified<S, D, R, P>(
    events: Seq<PullEvent<S, D, R, P>>,
    remote: RemoteOptions<S, D>,
    digest: String,
) -> bool {
    &&& events.len() >= 4
    &&& events[0] == PullEvent::<S, D, R, P>::RemoteOptions(Ok(remote))
    &&& events[1] matches PullEvent::VerificationOptions(Ok(Some(_)))
    &&& events[2] matches PullEvent::FulcioAndRekorData(Ok(_))
    &&& events[3] == PullEvent::<S, D, R, P>::Verified(Ok(digest))
}

/// Whether the events that a pull has taken in are those that lead to `stage`.
pub open spec fn leads_to<S, D, R, P>(
    args: PullArgs,
    events: Seq<PullEvent<S, D, R, P>>,
    stage: PullStage<S, D, R, P>,
) -> bool {
    match stage {
        PullStage::Remote => events.len() == 0,
        PullStage::Options { remote } => {
            &&& events.len() == 1
            &&& events[0] == PullEvent::<S, D, R, P>::RemoteOptions(Ok(remote))
        },
        PullStage::FulcioForPolicy { remote, options } => {
            &&& events.len() == 2
            &&& events[0] == PullEvent::<S, D, R, P>::RemoteOptions(Ok(remote))
            &&& events[1] == PullEvent::<S, D, R, P>::VerificationOptions(Ok(Some(options)))
        },
        PullStage::Verify { remote, options, fulcio } => {
            &&& events.len() == 3
            &&& events[0] == PullEvent::<S, D, R, P>::RemoteOptions(Ok(remote))
            &&& events[1] == PullEvent::<S, D, R, P>::VerificationOptions(Ok(Some(options)))
            &&& events[2] == PullEvent::<S, D, R, P>::FulcioAndRekorData(Ok(fulcio))
        },
        PullStage::Pull { remote, digest: None } => {
            &&& events.len() == 2
            &&& events[0] == PullEvent::<S, D, R, P>::RemoteOptions(Ok(remote))
            &&& events[1] == PullEvent::<S, D, R, P>::VerificationOptions(Ok(None))
        },
        PullStage::Pull { remote, digest: Some(digest) } => {
            &&& events.len() == 4
            &&& verified(events, remote, digest)
        },
        PullStage::FulcioForFile { remote, digest, policy } => {
            &&& events.len() == 5
            &&& verified(events, remote, digest)
            &&& events[4] == PullEvent::<S, D, R, P>::Pulled(Ok(policy))
        },
        PullStage::Checksum { remote, digest, policy, fulcio } => {
            &&& events.len() == 6
            &&& verified(events, remote, digest)
            &&& events[4] == PullEvent::<S, D, R, P>::Pulled(Ok(policy))
            &&& events[5] == PullEvent::<S, D, R, P>::FulcioAndRekorData(Ok(fulcio))
        },
        PullStage::Done => done_unverified(events) || done_verified(events),
        PullStage::Failed { failure } => {
            &&& events.len() > 0
            &&& reported(args, events.last()) == Some(failure)
        },
    }
}

/// Whether a pull without verification options has come to its end with `events`: behind the pull
/// itself.
pub open spec fn done_unverified<S, D, R, P>(events: Seq<PullEvent<S, D, R, P>>) -> bool {
    &&& events.len() == 3
    &&& events[0] matches PullEvent::RemoteOptions(Ok(_))
    &&& events[1] == PullEvent::<S, D, R, P>::VerificationOptions(Ok(None))
    &&& events[2] matches PullEvent::Pulled(Ok(_))
}

/// Whether a pull with verification options has come to its end with `events`: behind the check of
/// the pulled file.
pub open spec fn done_verified<S, D, R, P>(events: Seq<PullEvent<S, D, R, P>>) -> bool {
    &&& events.len() == 7
    &&& events[0] matches PullEvent::RemoteOptions(Ok(_))
    &&& events[1] matches PullEvent::VerificationOptions(Ok(Some(_)))
    &&& events[2] matches PullEvent::FulcioAndRekorData(Ok(_))
    &&& events[3] matches PullEvent::Verified(Ok(_))
    &&& events[4] matches PullEvent::Pulled(Ok(_))
    &&& events[5] matches PullEvent::FulcioAndRekorData(Ok(_))
    &&& events[6] matches PullEvent::LocalChecksumVerified(Ok(()))
}

/// Each stage of a pull holds what the actions before it gave, and nothing else.
pub proof fn pull_keeps_what_it_was_given<S, D, R, P>(
    args: PullArgs,
    events: Seq<PullEvent<S, D, R, P>>,
)
    requires
        PullSession::started(args).accepts(events),
    ensures
        PullSession::started(args).after(events).args == args,
        leads_to(args, events, PullSession::started(args).after(events).stage),
    decreases events.len(),
{
    if events.len() > 0 {
        let before = events.drop_last();
        pull_keeps_what_it_was_given(args, before);
        let stage = PullSession::started(args).after(before).stage;
        match (stage, events.last()) {
            (PullStage::Pull { digest: None, .. }, PullEvent::Pulled(Ok(_))) => {
                assert(done_unverified(events));
            },
            (PullStage::Checksum { .. }, PullEvent::LocalChecksumVerified(Ok(_))) => {
                assert(events[0] == before[0] && events[1] == before[1] && events[2] == before[2]);
                assert(events[3] == before[3] && events[4] == before[4] && events[5] == before[5]);
                assert(done_verified(events));
            },
            _ => {},
        }
    }
}

/// Where verification options are given, a policy is pulled only once it has been verified.
pub proof fn policy_is_verified_before_it_is_pulled<S, D, R, P>(
    args: PullArgs,
    events: Seq<PullEvent<S, D, R, P>>,
    options: VerificationConfig,
)
    requires
        PullSession::started(args).accepts(events),
        events.contains(PullEvent::VerificationOptions(Ok(Some(options)))),
        PullSession::started(args).after(events).next_action() matches Some(PullAction::Pull { .. }),
    ensures
        exists|digest: String|
            #[trigger] events.contains(PullEvent::<S, D, R, P>::Verified(Ok(digest))),
{
    pull_keeps_what_it_was_given(args, events);
    let stage = PullSession::started(args).after(events).stage;
    match stage->Pull_digest {
        Some(digest) => {
            assert(events[3] == PullEvent::<S, D, R, P>::Verified(Ok(digest)));
            assert(events.contains(PullEvent::<S, D, R, P>::Verified(Ok(digest))));
        },
        None => {
            let given = PullEvent::<S, D, R, P>::VerificationOptions(Ok(Some(options)));
            let i = choose|i: int| 0 <= i < events.len() && events[i] == given;
            assert(i == 0 || i == 1);
        },
    }
}

/// A pulled file is held against the digest that the verification before the pull gave.
pub proof fn file_is_checked_against_verified_digest<S, D, R, P>(
    args: PullArgs,
    events: Seq<PullEvent<S, D, R, P>>,
)
    requires
        PullSession::started(args).accepts(events),
        PullSession::started(args).after(events).next_action() matches Some(
            PullAction::VerifyLocalChecksum { .. },
        ),
    ensures
        PullSession::started(args).after(events).next_action() matches Some(
            PullAction::VerifyLocalChecksum { digest, .. },
        ) && events[3] == PullEvent::<S, D, R, P>::Verified(Ok(*digest)),
{
    pull_keeps_what_it_was_given(args, events);
}

/// Without verification options a pull has nothing to do with verifications.
pub proof fn pull_without_options_verifies_nothing<S, D, R, P>(
    args: PullArgs,
    events: Seq<PullEvent<S, D, R, P>>,
)
    requires
        PullSession::started(args).accepts(events),
        events.contains(PullEvent::VerificationOptions(Ok(None))),
    ensures
        !(PullSession::started(args).after(events).next_action() matches Some(
            PullAction::FulcioAndRekorData(_),
        )),
        !(PullSession::started(args).after(events).next_action() matches Some(
            PullAction::Verify { .. },
        )),
        !(PullSession::started(args).after(events).next_action() matches Some(
            PullAction::VerifyLocalChecksum { .. },
        )),
{
    pull_keeps_what_it_was_given(args, events);
    let none = PullEvent::<S, D, R, P>::VerificationOptions(Ok(None));
    let i = choose|i: int| 0 <= i < events.len() && events[i] == none;
    let stage = PullSession::started(args).after(events).stage;
    if leads_to(args, events, stage) {
        assert(i == 0 || i == 1 || i == 2 || i == 3 || i == 4 || i == 5 || stage is Done
            || stage is Failed);
    }
}

/// A pull with verification options asks for one thing after the other, each with what the command
/// line and the answers before gave: the policy is verified with the very options, remote options
/// and data that were had, pulled to where the command line says, and its file is held against the
/// digest of the verification.
pub proof fn verified_pull_hands_on_its_answers<S, D, R, P>(
    args: PullArgs,
    remote: RemoteOptions<S, D>,
    options: VerificationConfig,
    fulcio: Option<FulcioAndRekorData<R>>,
    digest: String,
    policy: P,
    fulcio_after: Option<FulcioAndRekorData<R>>,
)
    ensures
        ({
            let s0 = PullSession::<S, D, R, P>::started(args);
            let s1 = s0.next(PullEvent::RemoteOptions(Ok(remote)));
            let s2 = s1.next(PullEvent::VerificationOptions(Ok(Some(options))));
            let s3 = s2.next(PullEvent::FulcioAndRekorData(Ok(fulcio)));
            let s4 = s3.next(PullEvent::Verified(Ok(digest)));
            let s5 = s4.next(PullEvent::Pulled(Ok(policy)));
            let s6 = s5.next(PullEvent::FulcioAndRekorData(Ok(fulcio_after)));
            let s7 = s6.next(PullEvent::LocalChecksumVerified(Ok(())));
            &&& s0.next_action() == Some(PullAction::<S, D, R, P>::RemoteOptions(&args.remote))
            &&& s1.next_action() == Some(
                PullAction::<S, D, R, P>::VerificationOptions(&args.verification),
            )
            &&& s2.next_action() == Some(PullAction::<S, D, R, P>::FulcioAndRekorData(&args.fulcio))
            &&& s3.next_action() matches Some(PullAction::Verify { uri, remote: r, options: o, fulcio: f })
            &&& *uri == args.uri
            &&& *r == remote
            &&& *o == options
            &&& *f == fulcio
            &&& pulls_to(s4, args, remote)
            &&& s5.next_action() == Some(PullAction::<S, D, R, P>::FulcioAndRekorData(&args.fulcio))
            &&& s6.next_action() matches Some(
                PullAction::VerifyLocalChecksum { policy: p, remote: r, digest: d, fulcio: f },
            )
            &&& *p == policy
            &&& *r == remote
            &&& *d == digest
            &&& *f == fulcio_after
            &&& s7.stage is Done
        }),
{
}

/// Whether the next thing that `session` asks for is to pull the policy that `args` name, with
/// these options, to the file that `args` name, or else to the store.
pub open spec fn pulls_to<S, D, R, P>(
    session: PullSession<S, D, R, P>,
    args: PullArgs,
    remote: RemoteOptions<S, D>,
) -> bool {
    &&& session.next_action() matches Some(PullAction::Pull { uri, remote: r, destination })
    &&& *uri == args.uri
    &&& *r == remote
    &&& args.output_path is None ==> destination is MainStore
    &&& args.output_path is Some ==> {
        &&& destination matches PullDestination::LocalFile(path)
        &&& *path == args.output_path->0
    }
}

/// A pull without verification options pulls the policy to where the command line says, and is
/// done.
pub proof fn unverified_pull_hands_on_its_answers<S, D, R, P>(
    args: PullArgs,
    remote: RemoteOptions<S, D>,
    policy: P,
)
    ensures
        ({
            let s1 = PullSession::<S, D, R, P>::started(args).next(
                PullEvent::RemoteOptions(Ok(remote)),
            );
            let s2 = s1.next(PullEvent::VerificationOptions(Ok(None)));
            &&& pulls_to(s2, args, remote)
            &&& s2.next(PullEvent::Pulled(Ok(policy))).stage is Done
        }),
{
}

/// A pull that an answer stops tells the cause of that answer, and a refused policy is told with
/// its URI.
pub proof fn pull_tells_the_cause<S, D, R, P>(session: PullSession<S, D, R, P>, cause: String)
    ensures
        session.next_action() matches Some(PullAction::RemoteOptions(_)) ==> session.next(
            PullEvent::RemoteOptions(Err(cause)),
        ).stage == (PullStage::<S, D, R, P>::Failed { failure: Failure::Outside(cause) }),
        session.next_action() matches Some(PullAction::VerificationOptions(_)) ==> session.next(
            PullEvent::VerificationOptions(Err(cause)),
        ).stage == (PullStage::<S, D, R, P>::Failed { failure: Failure::Outside(cause) }),
        session.next_action() matches Some(PullAction::FulcioAndRekorData(_)) ==> session.next(
            PullEvent::FulcioAndRekorData(Err(cause)),
        ).stage == (PullStage::<S, D, R, P>::Failed { failure: Failure::Outside(cause) }),
        session.next_action() matches Some(PullAction::Verify { .. }) ==> session.next(
            PullEvent::Verified(Err(cause)),
        ).stage == (PullStage::<S, D, R, P>::Failed {
            failure: Failure::NotValidated { uri: session.args.uri, cause },
        }),
        session.next_action() matches Some(PullAction::Pull { .. }) ==> session.next(
            PullEvent::Pulled(Err(cause)),
        ).stage == (PullStage::<S, D, R, P>::Failed { failure: Failure::Outside(cause) }),
        session.next_action() matches Some(PullAction::VerifyLocalChecksum { .. }) ==> session.next(
            PullEvent::LocalChecksumVerified(Err(cause)),
        ).stage == (PullStage::<S, D, R, P>::Failed { failure: Failure::Outside(cause) }),
{
}

/// A pull takes in exactly the answers to what it asks for, and asks for nothing at its end.
pub proof fn pull_takes_answers_to_its_action<S, D, R, P>(
    session: PullSession<S, D, R, P>,
    event: PullEvent<S, D, R, P>,
)
    ensures
        session.stage.expects(event) == match session.next_action() {
            Some(PullAction::RemoteOptions(_)) => event is RemoteOptions,
            Some(PullAction::VerificationOptions(_)) => event is VerificationOptions,
            Some(PullAction::FulcioAndRekorData(_)) => event is FulcioAndRekorData,
            Some(PullAction::Verify { .. }) => event is Verified,
            Some(PullAction::Pull { .. }) => event is Pulled,
            Some(PullAction::VerifyLocalChecksum { .. }) => event is LocalChecksumVerified,
            None => false,
        },
        session.next_action() is None == (session.stage is Done || session.stage is Failed),
{
}

} // verus!
