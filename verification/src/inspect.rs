//! Inspecting a policy.

use crate::failure;
use crate::failure::Failure;
use crate::remote::{RemoteArgs, RemoteArgsView, RemoteOptions};
use vstd::prelude::*;

verus! {

/// What the command line says on an inspection.
pub struct InspectArgs {
    pub uri: String,
    pub output: Option<String>,
    pub remote: RemoteArgs,
}

pub struct InspectArgsView {
    pub uri: Seq<char>,
    pub output: Option<Seq<char>>,
    pub remote: RemoteArgsView,
}

impl View for InspectArgs {
    type V = InspectArgsView;

    open spec fn view(&self) -> InspectArgsView {
        InspectArgsView {
            uri: self.uri@,
            output: self.output.deep_view(),
            remote: self.remote@,
        }
    }
}

/// How far an inspection is. `O` is an output type.
pub enum InspectStage<S, D, O> {
    /// The output type is to be found by its name.
    OutputType,
    /// The options of remote servers are to be had.
    Remote { output: O },
    /// The policy is to be inspected.
    Inspect { output: O, remote: RemoteOptions<S, D> },
    Done,
    Failed { failure: Failure },
}

/// An inspection under way.
pub struct InspectSession<S, D, O> {
    pub args: InspectArgs,
    pub stage: InspectStage<S, D, O>,
}

/// What is to be done next.
pub enum InspectAction<'a, S, D, O> {
    OutputType(&'a Option<String>),
    RemoteOptions(&'a RemoteArgs),
    Inspect { uri: &'a String, output: &'a O, remote: &'a RemoteOptions<S, D> },
}

/// What came of an action. An error is the text of its cause.
pub enum InspectEvent<S, D, O> {
    OutputType(Result<O, String>),
    RemoteOptions(Result<RemoteOptions<S, D>, String>),
    Inspected(Result<(), String>),
}

impl<S, D, O> InspectStage<S, D, O> {
    /// The end of an inspection that something outside has stopped.
    pub open spec fn stopped(cause: String) -> Self {
        InspectStage::Failed { failure: Failure::Outside(cause) }
    }

    /// The stage behind `event`.
    pub open spec fn next(self, event: InspectEvent<S, D, O>) -> Self {
        match (self, event) {
            (
                InspectStage::OutputType,
                InspectEvent::OutputType(Ok(output)),
            ) => InspectStage::Remote { output },
            (
                InspectStage::Remote { output },
                InspectEvent::RemoteOptions(Ok(remote)),
            ) => InspectStage::Inspect { output, remote },
            (InspectStage::Inspect { .. }, InspectEvent::Inspected(Ok(()))) => InspectStage::Done,
            (_, InspectEvent::OutputType(Err(cause))) => Self::stopped(cause),
            (_, InspectEvent::RemoteOptions(Err(cause))) => Self::stopped(cause),
            (_, InspectEvent::Inspected(Err(cause))) => Self::stopped(cause),
            _ => self,
        }
    }

    /// Whether `event` tells what came of this stage's action.
    pub open spec fn expects(self, event: InspectEvent<S, D, O>) -> bool {
        match self {
            InspectStage::OutputType => event is OutputType,
            InspectStage::Remote { .. } => event is RemoteOptions,
            InspectStage::Inspect { .. } => event is Inspected,
            InspectStage::Done => false,
            InspectStage::Failed { .. } => false,
        }
    }

    /// How many actions may still come.
    pub open spec fn steps_left(self) -> nat {
        match self {
            InspectStage::OutputType => 3,
            InspectStage::Remote { .. } => 2,
            InspectStage::Inspect { .. } => 1,
            InspectStage::Done => 0,
            InspectStage::Failed { .. } => 0,
        }
    }
}

impl<S, D, O> InspectSession<S, D, O> {
    /// An inspection before its first action.
    pub open spec fn started(args: InspectArgs) -> Self {
        InspectSession { args, stage: InspectStage::OutputType }
    }

    /// The inspection behind `event`.
    pub open spec fn next(self, event: InspectEvent<S, D, O>) -> Self {
        InspectSession { args: self.args, stage: self.stage.next(event) }
    }

    /// What is to be done in this stage; nothing at the end.
    pub open spec fn next_action(self) -> Option<InspectAction<'static, S, D, O>> {
        match self.stage {
            InspectStage::OutputType => Some(InspectAction::OutputType(&self.args.output)),
            InspectStage::Remote { .. } => Some(InspectAction::RemoteOptions(&self.args.remote)),
            InspectStage::Inspect { output, remote } => Some(
                InspectAction::Inspect { uri: &self.args.uri, output: &output, remote: &remote },
            ),
            InspectStage::Done => None,
            InspectStage::Failed { .. } => None,
        }
    }

    /// Starts an inspection.
    pub fn new(args: InspectArgs) -> (res: Self)
        ensures
            res == Self::started(args),
    {
        InspectSession { args, stage: InspectStage::OutputType }
    }

    /// What is to be done next; nothing at the end.
    pub fn action(&self) -> (res: Option<InspectAction<'_, S, D, O>>)
        ensures
            res == self.next_action(),
    {
        match &self.stage {
            InspectStage::OutputType => Some(InspectAction::OutputType(&self.args.output)),
            InspectStage::Remote { .. } => Some(InspectAction::RemoteOptions(&self.args.remote)),
            InspectStage::Inspect { output, remote } => Some(
                InspectAction::Inspect { uri: &self.args.uri, output, remote },
            ),
            InspectStage::Done => None,
            InspectStage::Failed { .. } => None,
        }
    }

    /// Tells whether `event` tells what came of this stage's action.
    pub fn awaits(&self, event: &InspectEvent<S, D, O>) -> (res: bool)
        ensures
            res == self.stage.expects(*event),
    {
        match (&self.stage, event) {
            (InspectStage::OutputType, InspectEvent::OutputType(_)) => true,
            (InspectStage::Remote { .. }, InspectEvent::RemoteOptions(_)) => true,
            (InspectStage::Inspect { .. }, InspectEvent::Inspected(_)) => true,
            _ => false,
        }
    }

    /// Takes in what came of this stage's action.
    pub fn advance(self, event: InspectEvent<S, D, O>) -> (res: Self)
        requires
            self.stage.expects(event),
        ensures
            res == self.next(event),
    {
        let InspectSession { args, stage } = self;
        let stage = match (stage, event) {
            (
                InspectStage::OutputType,
                InspectEvent::OutputType(Ok(output)),
            ) => InspectStage::Remote { output },
            (
                InspectStage::Remote { output },
                InspectEvent::RemoteOptions(Ok(remote)),
            ) => InspectStage::Inspect { output, remote },
            (InspectStage::Inspect { .. }, InspectEvent::Inspected(Ok(()))) => InspectStage::Done,
            (_, InspectEvent::OutputType(Err(cause))) => stop(cause),
            (_, InspectEvent::RemoteOptions(Err(cause))) => stop(cause),
            (_, InspectEvent::Inspected(Err(cause))) => stop(cause),
            (stage, _) => stage,
        };
        InspectSession { args, stage }
    }
}

fn stop<S, D, O>(cause: String) -> (res: InspectStage<S, D, O>)
    ensures
        res == InspectStage::<S, D, O>::stopped(cause),
{
    InspectStage::Failed { failure: Failure::Outside(cause) }
}

/// What the outside answers to the actions of one inspection.
pub struct InspectWorld<S, D, O> {
    pub output_type: Result<O, String>,
    pub remote: Result<RemoteOptions<S, D>, String>,
    pub inspected: Result<(), String>,
}

impl<S, D, O> InspectWorld<S, D, O> {
    /// What comes of the action of a stage.
    pub open spec fn answer(self, stage: InspectStage<S, D, O>) -> InspectEvent<S, D, O> {
        match stage {
            InspectStage::Remote { .. } => InspectEvent::RemoteOptions(self.remote),
            InspectStage::Inspect { .. } => InspectEvent::Inspected(self.inspected),
            _ => InspectEvent::OutputType(self.output_type),
        }
    }

    /// Why an inspection fails, if it does: the first of these that applies.
    pub open spec fn failure(self) -> Option<Failure> {
        if self.output_type is Err {
            failure::cause_of(self.output_type)
        } else if self.remote is Err {
            failure::cause_of(self.remote)
        } else {
            failure::cause_of(self.inspected)
        }
    }
}

impl<S, D, O> InspectSession<S, D, O> {
    /// What the inspection comes to in `world`.
    pub open spec fn run(self, world: InspectWorld<S, D, O>) -> Self
        decreases self.stage.steps_left(),
    {
        if self.stage is Done || self.stage is Failed {
            self
        } else {
            self.next(world.answer(self.stage)).run(world)
        }
    }
}

/// Every answer brings an inspection closer to its end.
pub proof fn inspect_ends<S, D, O>(
    session: InspectSession<S, D, O>,
    event: InspectEvent<S, D, O>,
)
    requires
        session.stage.expects(event),
    ensures
        session.next(event).stage.steps_left() < session.stage.steps_left(),
{
}

/// An inspection ends well unless one of its actions fails, and then with that action's failure.
pub proof fn inspect_comes_to_its_outcome<S, D, O>(
    args: InspectArgs,
    world: InspectWorld<S, D, O>,
)
    ensures
        InspectSession::started(args).run(world).stage == match world.failure() {
            None => InspectStage::<S, D, O>::Done,
            Some(failure) => InspectStage::<S, D, O>::Failed { failure },
        },
{
    reveal_with_fuel(InspectSession::run, 4);
}

/// An inspection asks for the output type by the name on the command line, for the remote options,
/// and then for the policy itself with what these gave.
pub proof fn inspection_hands_on_its_answers<S, D, O>(
    args: InspectArgs,
    output: O,
    remote: RemoteOptions<S, D>,
)
    ensures
        ({
            let s0 = InspectSession::<S, D, O>::started(args);
            let s1 = s0.next(InspectEvent::OutputType(Ok(output)));
            let s2 = s1.next(InspectEvent::RemoteOptions(Ok(remote)));
            &&& s0.next_action() == Some(InspectAction::<S, D, O>::OutputType(&args.output))
            &&& s1.next_action() == Some(InspectAction::<S, D, O>::RemoteOptions(&args.remote))
            &&& s2.next_action() matches Some(InspectAction::Inspect { uri, output: o, remote: r })
            &&& *uri == args.uri
            &&& *o == output
            &&& *r == remote
            &&& s2.next(InspectEvent::Inspected(Ok(()))).stage is Done
        }),
{
}

/// An inspection that an answer stops tells the cause of that answer.
pub proof fn inspection_tells_the_cause<S, D, O>(session: InspectSession<S, D, O>, cause: String)
    ensures
        session.next_action() matches Some(InspectAction::OutputType(_)) ==> session.next(
            InspectEvent::OutputType(Err(cause)),
        ).stage == (InspectStage::<S, D, O>::Failed { failure: Failure::Outside(cause) }),
        session.next_action() matches Some(InspectAction::RemoteOptions(_)) ==> session.next(
            InspectEvent::RemoteOptions(Err(cause)),
        ).stage == (InspectStage::<S, D, O>::Failed { failure: Failure::Outside(cause) }),
        session.next_action() matches Some(InspectAction::Inspect { .. }) ==> session.next(
            InspectEvent::Inspected(Err(cause)),
        ).stage == (InspectStage::<S, D, O>::Failed { failure: Failure::Outside(cause) }),
{
}

/// An inspection takes in exactly the answers to what it asks for, and asks for nothing at its end.
pub proof fn inspection_takes_answers_to_its_action<S, D, O>(
    session: InspectSession<S, D, O>,
    event: InspectEvent<S, D, O>,
)
    ensures
        session.stage.expects(event) == match session.next_action() {
            Some(InspectAction::OutputType(_)) => event is OutputType,
            Some(InspectAction::RemoteOptions(_)) => event is RemoteOptions,
            Some(InspectAction::Inspect { .. }) => event is Inspected,
            None => false,
        },
        session.next_action() is None == (session.stage is Done || session.stage is Failed),
{
}

} // verus!
