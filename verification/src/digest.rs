//! Telling the digest of a policy in its registry.

use crate::failure;
use crate::failure::Failure;
use crate::output;
use crate::remote::{RemoteArgs, RemoteArgsView, RemoteOptions};
use vstd::prelude::*;

verus! {

/// What the command line says on a digest.
pub struct DigestArgs {
    pub uri: String,
    pub remote: RemoteArgs,
}

pub struct DigestArgsView {
    pub uri: Seq<char>,
    pub remote: RemoteArgsView,
}

impl View for DigestArgs {
    type V = DigestArgsView;

    open spec fn view(&self) -> DigestArgsView {
        DigestArgsView {
            uri: self.uri@,
            remote: self.remote@,
        }
    }
}

/// How far the search for a digest is.
pub enum DigestStage<S, D> {
    /// The options of remote servers are to be had.
    Remote,
    /// The registry is to be asked for the digest.
    Digest { remote: RemoteOptions<S, D> },
    /// The digest is to be told.
    Report { digest: String },
    Done,
    Failed { failure: Failure },
}

/// A search for a digest under way.
pub struct DigestSession<S, D> {
    pub args: DigestArgs,
    pub stage: DigestStage<S, D>,
}

/// What is to be done next.
pub enum DigestAction<'a, S, D> {
    RemoteOptions(&'a RemoteArgs),
    ManifestDigest { uri: &'a String, remote: &'a RemoteOptions<S, D> },
    Print(String),
}

/// What came of an action. An error is the text of its cause.
pub enum DigestEvent<S, D> {
    RemoteOptions(Result<RemoteOptions<S, D>, String>),
    ManifestDigest(Result<String, String>),
    Printed,
}

impl<S, D> DigestStage<S, D> {
    /// The end of a search that something outside has stopped.
    pub open spec fn stopped(cause: String) -> Self {
        DigestStage::Failed { failure: Failure::Outside(cause) }
    }

    /// The stage behind `event`.
    pub open spec fn next(self, event: DigestEvent<S, D>) -> Self {
        match (self, event) {
            (DigestStage::Remote, DigestEvent::RemoteOptions(Ok(remote))) => DigestStage::Digest {
                remote,
            },
            (
                DigestStage::Digest { .. },
                DigestEvent::ManifestDigest(Ok(digest)),
            ) => DigestStage::Report { digest },
            (DigestStage::Report { .. }, DigestEvent::Printed) => DigestStage::Done,
            (_, DigestEvent::RemoteOptions(Err(cause))) => Self::stopped(cause),
            (_, DigestEvent::ManifestDigest(Err(cause))) => Self::stopped(cause),
            _ => self,
        }
    }

    /// Whether `event` tells what came of this stage's action.
    pub open spec fn expects(self, event: DigestEvent<S, D>) -> bool {
        match self {
            DigestStage::Remote => event is RemoteOptions,
            DigestStage::Digest { .. } => event is ManifestDigest,
            DigestStage::Report { .. } => event is Printed,
            DigestStage::Done => false,
            DigestStage::Failed { .. } => false,
        }
    }

    /// How many actions may still come.
    pub open spec fn steps_left(self) -> nat {
        match self {
            DigestStage::Remote => 3,
            DigestStage::Digest { .. } => 2,
            DigestStage::Report { .. } => 1,
            DigestStage::Done => 0,
            DigestStage::Failed { .. } => 0,
        }
    }
}

impl<S, D> DigestSession<S, D> {
    /// A search before its first action.
    pub open spec fn started(args: DigestArgs) -> Self {
        DigestSession { args, stage: DigestStage::Remote }
    }

    /// The search behind `event`.
    pub open spec fn next(self, event: DigestEvent<S, D>) -> Self {
        DigestSession { args: self.args, stage: self.stage.next(event) }
    }

    /// Whether `action` is what is to be done in this stage.
    pub open spec fn asks_for(self, action: Option<DigestAction<'_, S, D>>) -> bool {
        match self.stage {
            DigestStage::Remote => action == Some(
                DigestAction::<S, D>::RemoteOptions(&self.args.remote),
            ),
            DigestStage::Digest { remote: known } => {
                &&& action matches Some(DigestAction::ManifestDigest { uri, remote })
                &&& *uri == self.args.uri
                &&& *remote == known
            },
            DigestStage::Report { digest } => {
                &&& action matches Some(DigestAction::Print(text))
                &&& text@ == output::digest_text(self.args.uri@, digest@)
            },
            DigestStage::Done => action is None,
            DigestStage::Failed { .. } => action is None,
        }
    }

    /// Starts a search.
    pub fn new(args: DigestArgs) -> (res: Self)
        ensures
            res == Self::started(args),
    {
        DigestSession { args, stage: DigestStage::Remote }
    }

    /// What is to be done next; nothing at the end.
    pub fn action(&self) -> (res: Option<DigestAction<'_, S, D>>)
        ensures
            self.asks_for(res),
    {
        match &self.stage {
            DigestStage::Remote => Some(DigestAction::RemoteOptions(&self.args.remote)),
            DigestStage::Digest { remote } => Some(
                DigestAction::ManifestDigest { uri: &self.args.uri, remote },
            ),
            DigestStage::Report { digest } => Some(
                DigestAction::Print(output::digest_line(&self.args.uri, digest)),
            ),
            DigestStage::Done => None,
            DigestStage::Failed { .. } => None,
        }
    }

    /// Tells whether `event` tells what came of this stage's action.
    pub fn awaits(&self, event: &DigestEvent<S, D>) -> (res: bool)
        ensures
            res == self.stage.expects(*event),
    {
        match (&self.stage, event) {
            (DigestStage::Remote, DigestEvent::RemoteOptions(_)) => true,
            (DigestStage::Digest { .. }, DigestEvent::ManifestDigest(_)) => true,
            (DigestStage::Report { .. }, DigestEvent::Printed) => true,
            _ => false,
        }
    }

    /// Takes in what came of this stage's action.
    pub fn advance(self, event: DigestEvent<S, D>) -> (res: Self)
        requires
            self.stage.expects(event),
        ensures
            res == self.next(event),
    {
        let DigestSession { args, stage } = self;
        let stage = match (stage, event) {
            (DigestStage::Remote, DigestEvent::RemoteOptions(Ok(remote))) => DigestStage::Digest {
                remote,
            },
            (
                DigestStage::Digest { .. },
                DigestEvent::ManifestDigest(Ok(digest)),
            ) => DigestStage::Report { digest },
            (DigestStage::Report { .. }, DigestEvent::Printed) => DigestStage::Done,
            (_, DigestEvent::RemoteOptions(Err(cause))) => stop(cause),
            (_, DigestEvent::ManifestDigest(Err(cause))) => stop(cause),
            (stage, _) => stage,
        };
        DigestSession { args, stage }
    }
}

fn stop<S, D>(cause: String) -> (res: DigestStage<S, D>)
    ensures
        res == DigestStage::<S, D>::stopped(cause),
{
    DigestStage::Failed { failure: Failure::Outside(cause) }
}

/// What the outside answers to the actions of one search.
pub struct DigestWorld<S, D> {
    pub remote: Result<RemoteOptions<S, D>, String>,
    pub digest: Result<String, String>,
}

impl<S, D> DigestWorld<S, D> {
    /// What comes of the action of a stage.
    pub open spec fn answer(self, stage: DigestStage<S, D>) -> DigestEvent<S, D> {
        match stage {
            DigestStage::Digest { .. } => DigestEvent::ManifestDigest(self.digest),
            DigestStage::Report { .. } => DigestEvent::Printed,
            _ => DigestEvent::RemoteOptions(self.remote),
        }
    }

    /// Why the search fails, if it does: the first of these that applies.
    pub open spec fn failure(self) -> Option<Failure> {
        if self.remote is Err {
            failure::cause_of(self.remote)
        } else {
            failure::cause_of(self.digest)
        }
    }
}

impl<S, D> DigestSession<S, D> {
    /// What the search comes to in `world`.
    pub open spec fn run(self, world: DigestWorld<S, D>) -> Self
        decreases self.stage.steps_left(),
    {
        if self.stage is Done || self.stage is Failed {
            self
        } else {
            self.next(world.answer(self.stage)).run(world)
        }
    }
}

/// Every answer brings the search closer to its end.
pub proof fn digest_ends<S, D>(session: DigestSession<S, D>, event: DigestEvent<S, D>)
    requires
        session.stage.expects(event),
    ensures
        session.next(event).stage.steps_left() < session.stage.steps_left(),
{
}

/// The search ends well unless one of its actions fails, and then with that action's failure.
pub proof fn digest_comes_to_its_outcome<S, D>(args: DigestArgs, world: DigestWorld<S, D>)
    ensures
        DigestSession::started(args).run(world).stage == match world.failure() {
            None => DigestStage::<S, D>::Done,
            Some(failure) => DigestStage::<S, D>::Failed { failure },
        },
{
    reveal_with_fuel(DigestSession::run, 4);
}

/// The registry is asked for the digest of the policy on the command line, with the remote options
/// that were had, and what is told is the URI, `@` and that digest, on a line.
pub proof fn digest_hands_on_its_answers<S, D>(
    args: DigestArgs,
    remote: RemoteOptions<S, D>,
    digest: String,
    first: Option<DigestAction<'_, S, D>>,
    second: Option<DigestAction<'_, S, D>>,
    third: Option<DigestAction<'_, S, D>>,
)
    requires
        ({
            let s0 = DigestSession::<S, D>::started(args);
            let s1 = s0.next(DigestEvent::RemoteOptions(Ok(remote)));
            let s2 = s1.next(DigestEvent::ManifestDigest(Ok(digest)));
            &&& s0.asks_for(first)
            &&& s1.asks_for(second)
            &&& s2.asks_for(third)
        }),
    ensures
        first == Some(DigestAction::<S, D>::RemoteOptions(&args.remote)),
        second matches Some(DigestAction::ManifestDigest { uri, remote: r }) && *uri == args.uri
            && *r == remote,
        third matches Some(DigestAction::Print(text)) && text@ == args.uri@ + "@"@ + digest@
            + "\n"@,
        DigestSession::<S, D>::started(args).next(DigestEvent::RemoteOptions(Ok(remote))).next(
            DigestEvent::ManifestDigest(Ok(digest)),
        ).next(DigestEvent::Printed).stage is Done,
{
}

/// A search for a digest that an answer stops tells the cause of that answer.
pub proof fn digest_tells_the_cause<S, D>(
    session: DigestSession<S, D>,
    action: Option<DigestAction<'_, S, D>>,
    cause: String,
)
    requires
        session.asks_for(action),
    ensures
        action matches Some(DigestAction::RemoteOptions(_)) ==> session.next(
            DigestEvent::RemoteOptions(Err(cause)),
        ).stage == (DigestStage::<S, D>::Failed { failure: Failure::Outside(cause) }),
        action matches Some(DigestAction::ManifestDigest { .. }) ==> session.next(
            DigestEvent::ManifestDigest(Err(cause)),
        ).stage == (DigestStage::<S, D>::Failed { failure: Failure::Outside(cause) }),
{
}

/// A search for a digest takes in exactly the answers to what it asks for, and asks for nothing at
/// its end.
pub proof fn digest_takes_answers_to_its_action<S, D>(
    session: DigestSession<S, D>,
    action: Option<DigestAction<'_, S, D>>,
    event: DigestEvent<S, D>,
)
    requires
        session.asks_for(action),
    ensures
        session.stage.expects(event) == match action {
            Some(DigestAction::RemoteOptions(_)) => event is RemoteOptions,
            Some(DigestAction::ManifestDigest { .. }) => event is ManifestDigest,
            Some(DigestAction::Print(_)) => event is Printed,
            None => false,
        },
        action is None == (session.stage is Done || session.stage is Failed),
{
}

} // verus!
