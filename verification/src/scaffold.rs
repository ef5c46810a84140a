//! Writing a manifest for a policy.

use crate::arg::{Arg, ArgError, ArgView, Content};
use crate::failure;
use crate::failure::Failure;
use crate::settings;
use crate::settings::SettingsChoice;
use vstd::prelude::*;

verus! {

/// What the command line says on a manifest.
pub struct ManifestArgs {
    pub uri: String,
    pub resource_type: String,
    pub settings_path: Arg,
    pub settings_json: Arg,
    pub title: Arg,
}

pub struct ManifestArgsView {
    pub uri: Seq<char>,
    pub resource_type: Seq<char>,
    pub settings_path: ArgView,
    pub settings_json: ArgView,
    pub title: ArgView,
}

impl View for ManifestArgs {
    type V = ManifestArgsView;

    open spec fn view(&self) -> ManifestArgsView {
        ManifestArgsView {
            uri: self.uri@,
            resource_type: self.resource_type@,
            settings_path: self.settings_path@,
            settings_json: self.settings_json@,
            title: self.title@,
        }
    }
}

impl ManifestArgs {
    /// Where the settings come from.
    pub open spec fn choice(self) -> Result<SettingsChoice, ArgError> {
        settings::choice_of(self.settings_path, self.settings_json)
    }
}

/// How far the manifest is.
#[allow(inconsistent_fields)]
pub enum ManifestStage {
    /// The settings are to be read.
    Settings { path: String },
    /// The manifest is to be written.
    Manifest { settings: Option<String>, title: Option<String> },
    Done,
    Failed { failure: Failure },
}

/// A manifest under way.
pub struct ManifestSession {
    pub args: ManifestArgs,
    pub stage: ManifestStage,
}

/// What is to be done next.
pub enum ManifestAction<'a> {
    ReadSettings(&'a String),
    Manifest {
        uri: &'a String,
        resource_type: &'a String,
        settings: &'a Option<String>,
        title: &'a Option<String>,
    },
}

/// What came of an action. An error is the text of its cause.
pub enum ManifestEvent {
    SettingsRead(Result<String, String>),
    Written(Result<(), String>),
}

impl ManifestStage {
    /// The end of a manifest that an argument has stopped.
    pub open spec fn no_answer(error: ArgError) -> Self {
        ManifestStage::Failed { failure: Failure::Argument(error) }
    }

    /// The stage in which the settings are there. Only here it counts what the title is.
    pub open spec fn with_settings(args: ManifestArgs, settings: Option<String>) -> Self {
        match args.title.first() {
            Ok(title) => ManifestStage::Manifest { settings, title },
            Err(error) => Self::no_answer(error),
        }
    }

    /// The first stage with these arguments.
    pub open spec fn first(args: ManifestArgs) -> Self {
        match args.choice() {
            Err(error) => Self::no_answer(error),
            Ok(SettingsChoice::Conflict) => ManifestStage::Failed {
                failure: Failure::ConflictingSettings,
            },
            Ok(SettingsChoice::File(path)) => ManifestStage::Settings { path },
            Ok(SettingsChoice::Inline(text)) => Self::with_settings(args, Some(text)),
            Ok(SettingsChoice::Absent) => Self::with_settings(args, None),
        }
    }

    /// The stage behind `event`, in a manifest with these arguments.
    pub open spec fn next(self, args: ManifestArgs, event: ManifestEvent) -> Self {
        match (self, event) {
            (
                ManifestStage::Settings { .. },
                ManifestEvent::SettingsRead(Ok(settings)),
            ) => Self::with_settings(args, Some(settings)),
            (
                ManifestStage::Settings { path },
                ManifestEvent::SettingsRead(Err(cause)),
            ) => ManifestStage::Failed { failure: Failure::SettingsFile { path, cause } },
            (ManifestStage::Manifest { .. }, ManifestEvent::Written(Ok(()))) => ManifestStage::Done,
            (
                ManifestStage::Manifest { .. },
                ManifestEvent::Written(Err(cause)),
            ) => ManifestStage::Failed { failure: Failure::Outside(cause) },
            _ => self,
        }
    }

    /// Whether `event` tells what came of this stage's action.
    pub open spec fn expects(self, event: ManifestEvent) -> bool {
        match self {
            ManifestStage::Settings { .. } => event is SettingsRead,
            ManifestStage::Manifest { .. } => event is Written,
            ManifestStage::Done => false,
            ManifestStage::Failed { .. } => false,
        }
    }

    /// How many actions may still come.
    pub open spec fn steps_left(self) -> nat {
        match self {
            ManifestStage::Settings { .. } => 2,
            ManifestStage::Manifest { .. } => 1,
            ManifestStage::Done => 0,
            ManifestStage::Failed { .. } => 0,
        }
    }
}

impl ManifestSession {
    /// A manifest before its first action.
    pub open spec fn started(args: ManifestArgs) -> Self {
        ManifestSession { args, stage: ManifestStage::first(args) }
    }

    /// The manifest behind `event`.
    pub open spec fn next(self, event: ManifestEvent) -> Self {
        ManifestSession { args: self.args, stage: self.stage.next(self.args, event) }
    }

    /// What is to be done in this stage; nothing at the end.
    pub open spec fn next_action(self) -> Option<ManifestAction<'static>> {
        match self.stage {
            ManifestStage::Settings { path } => Some(ManifestAction::ReadSettings(&path)),
            ManifestStage::Manifest { settings, title } => Some(
                ManifestAction::Manifest {
                    uri: &self.args.uri,
                    resource_type: &self.args.resource_type,
                    settings: &settings,
                    title: &title,
                },
            ),
            ManifestStage::Done => None,
            ManifestStage::Failed { .. } => None,
        }
    }

    /// Starts a manifest.
    pub fn new(args: ManifestArgs) -> (res: Self)
        ensures
            res == Self::started(args),
    {
        let stage = match settings::settings_choice(&args.settings_path, &args.settings_json) {
            Err(error) => ManifestStage::Failed { failure: Failure::Argument(error) },
            Ok(SettingsChoice::Conflict) => ManifestStage::Failed {
                failure: Failure::ConflictingSettings,
            },
            Ok(SettingsChoice::File(path)) => ManifestStage::Settings { path },
            Ok(SettingsChoice::Inline(text)) => manifest_with(&args, Some(text)),
            Ok(SettingsChoice::Absent) => manifest_with(&args, None),
        };
        ManifestSession { args, stage }
    }

    /// What is to be done next; nothing at the end.
    pub fn action(&self) -> (res: Option<ManifestAction<'_>>)
        ensures
            res == self.next_action(),
    {
        match &self.stage {
            ManifestStage::Settings { path } => Some(ManifestAction::ReadSettings(path)),
            ManifestStage::Manifest { settings, title } => Some(
                ManifestAction::Manifest {
                    uri: &self.args.uri,
                    resource_type: &self.args.resource_type,
                    settings,
                    title,
                },
            ),
            ManifestStage::Done => None,
            ManifestStage::Failed { .. } => None,
        }
    }

    /// Tells whether `event` tells what came of this stage's action.
    pub fn awaits(&self, event: &ManifestEvent) -> (res: bool)
        ensures
            res == self.stage.expects(*event),
    {
        match (&self.stage, event) {
            (ManifestStage::Settings { .. }, ManifestEvent::SettingsRead(_)) => true,
            (ManifestStage::Manifest { .. }, ManifestEvent::Written(_)) => true,
            _ => false,
        }
    }

    /// Takes in what came of this stage's action.
    pub fn advance(self, event: ManifestEvent) -> (res: Self)
        requires
            self.stage.expects(event),
        ensures
            res == self.next(event),
    {
        let ManifestSession { args, stage } = self;
        let stage = match (stage, event) {
            (
                ManifestStage::Settings { .. },
                ManifestEvent::SettingsRead(Ok(settings)),
            ) => manifest_with(&args, Some(settings)),
            (
                ManifestStage::Settings { path },
                ManifestEvent::SettingsRead(Err(cause)),
            ) => ManifestStage::Failed { failure: Failure::SettingsFile { path, cause } },
            (ManifestStage::Manifest { .. }, ManifestEvent::Written(Ok(()))) => ManifestStage::Done,
            (
                ManifestStage::Manifest { .. },
                ManifestEvent::Written(Err(cause)),
            ) => ManifestStage::Failed { failure: Failure::Outside(cause) },
            (stage, _) => stage,
        };
        ManifestSession { args, stage }
    }
}

fn manifest_with(args: &ManifestArgs, settings: Option<String>) -> (res: ManifestStage)
    ensures
        res == ManifestStage::with_settings(*args, settings),
{
    match args.title.one() {
        Ok(title) => ManifestStage::Manifest { settings, title },
        Err(error) => ManifestStage::Failed { failure: Failure::Argument(error) },
    }
}

/// What the outside answers to the actions of one manifest.
pub struct ManifestWorld {
    pub settings: Result<String, String>,
    pub written: Result<(), String>,
}

impl ManifestWorld {
    /// What comes of the action of a stage.
    pub open spec fn answer(self, stage: ManifestStage) -> ManifestEvent {
        match stage {
            ManifestStage::Settings { .. } => ManifestEvent::SettingsRead(self.settings),
            _ => ManifestEvent::Written(self.written),
        }
    }

    /// Why a manifest with these arguments fails, if it does: the first of these that applies.
    pub open spec fn failure(self, args: ManifestArgs) -> Option<Failure> {
        match (args.choice(), self.settings, args.title.first()) {
            (Err(error), _, _) => Some(Failure::Argument(error)),
            (Ok(SettingsChoice::Conflict), _, _) => Some(Failure::ConflictingSettings),
            (Ok(SettingsChoice::File(path)), Err(cause), _) => Some(
                Failure::SettingsFile { path, cause },
            ),
            (_, _, Err(error)) => Some(Failure::Argument(error)),
            _ => failure::cause_of(self.written),
        }
    }
}

impl ManifestSession {
    /// What the manifest comes to in `world`.
    pub open spec fn run(self, world: ManifestWorld) -> Self
        decreases self.stage.steps_left(),
    {
        if self.stage is Done || self.stage is Failed {
            self
        } else {
            self.next(world.answer(self.stage)).run(world)
        }
    }
}

/// Every answer brings a manifest closer to its end.
pub proof fn manifest_ends(session: ManifestSession, event: ManifestEvent)
    requires
        session.stage.expects(event),
    ensures
        session.next(event).stage.steps_left() < session.stage.steps_left(),
{
}

/// A manifest ends well unless one of its actions fails, its settings are given twice or an
/// argument gives no answer where it is needed, and then with the first failure.
pub proof fn manifest_comes_to_its_outcome(args: ManifestArgs, world: ManifestWorld)
    ensures
        ManifestSession::started(args).run(world).stage == match world.failure(args) {
            None => ManifestStage::Done,
            Some(failure) => ManifestStage::Failed { failure },
        },
{
    reveal_with_fuel(ManifestSession::run, 3);
}

/// Settings that are given twice stop a manifest before its first action.
pub proof fn conflicting_settings_are_never_written(args: ManifestArgs)
    requires
        args.choice() == Ok::<SettingsChoice, ArgError>(SettingsChoice::Conflict),
    ensures
        ManifestSession::started(args).next_action() is None,
        ManifestSession::started(args).stage == (ManifestStage::Failed {
            failure: Failure::ConflictingSettings,
        }),
{
}

/// Whether `session` asks next for the manifest of the policy, of the resource type and with the
/// title on the command line, and with these settings.
pub open spec fn writes_manifest(
    session: ManifestSession,
    args: ManifestArgs,
    with_settings: Option<String>,
) -> bool {
    &&& session.next_action() matches Some(
        ManifestAction::Manifest { uri, resource_type, settings, title },
    )
    &&& *uri == args.uri
    &&& *resource_type == args.resource_type
    &&& *settings == with_settings
    &&& args.title.content is Absent ==> *title is None
    &&& args.title.content matches Content::Values(values) ==> *title == if values@.len() > 0 {
        Some(values@[0])
    } else {
        None::<String>
    }
}

/// A manifest is written of what the command line names, with the settings of the file that it
/// names, with its text, or with none.
pub proof fn manifest_hands_on_its_answers(args: ManifestArgs, settings: String)
    requires
        args.title.content is Absent || args.title.content is Values,
    ensures
        ({
            let s0 = ManifestSession::started(args);
            let s1 = s0.next(ManifestEvent::SettingsRead(Ok(settings)));
            &&& args.settings_json.content is Absent && (args.settings_path.content is Absent || (
            args.settings_path.content matches Content::Values(values) && values@.len() == 0))
                ==> writes_manifest(s0, args, None) && s0.next(
                ManifestEvent::Written(Ok(())),
            ).stage is Done
            &&& (args.settings_json.content matches Content::Values(values) && values@.len() > 0
                && args.settings_path.content is Absent) ==> writes_manifest(
                s0,
                args,
                Some(args.settings_json.content->Values_0@[0]),
            ) && s0.next(ManifestEvent::Written(Ok(()))).stage is Done
            &&& (args.settings_path.content matches Content::Values(values) && values@.len() > 0
                && args.settings_json.content is Absent) ==> s0.next_action() == Some(
                ManifestAction::ReadSettings(&args.settings_path.content->Values_0@[0]),
            ) && writes_manifest(s1, args, Some(settings)) && s1.next(
                ManifestEvent::Written(Ok(())),
            ).stage is Done
            &&& (args.settings_path.content is Values || args.settings_path.content is Foreign) && (
            args.settings_json.content is Values || args.settings_json.content is Foreign)
                ==> s0.stage == (ManifestStage::Failed { failure: Failure::ConflictingSettings })
        }),
{
}

/// A manifest that an answer stops tells the cause of that answer, and a file of settings that
/// cannot be read is told by its path.
pub proof fn manifest_tells_the_cause(session: ManifestSession, cause: String)
    ensures
        session.next_action() matches Some(ManifestAction::ReadSettings(path)) ==> session.next(
            ManifestEvent::SettingsRead(Err(cause)),
        ).stage == (ManifestStage::Failed {
            failure: Failure::SettingsFile { path: *path, cause },
        }),
        session.next_action() matches Some(ManifestAction::Manifest { .. }) ==> session.next(
            ManifestEvent::Written(Err(cause)),
        ).stage == (ManifestStage::Failed { failure: Failure::Outside(cause) }),
{
}

/// A manifest takes in exactly the answers to what it asks for, and asks for nothing at its end.
pub proof fn manifest_takes_answers_to_its_action(session: ManifestSession, event: ManifestEvent)
    ensures
        session.stage.expects(event) == match session.next_action() {
            Some(ManifestAction::ReadSettings(_)) => event is SettingsRead,
            Some(ManifestAction::Manifest { .. }) => event is Written,
            None => false,
        },
        session.next_action() is None == (session.stage is Done || session.stage is Failed),
{
}

/// A title that cannot be read never passes for none: the manifest fails with it, once the settings
/// are there.
pub proof fn unreadable_title_is_no_absent_one(args: ManifestArgs, settings: String)
    requires
        args.title.content is Unknown || args.title.content is Foreign,
    ensures
        args.settings_path.content is Absent && args.settings_json.content is Absent
            ==> ManifestSession::started(args).stage == (ManifestStage::Failed {
            failure: Failure::Argument(ArgError::Unreadable(args.title.id)),
        }),
        (args.settings_path.content matches Content::Values(values) && values@.len() > 0
            && args.settings_json.content is Absent) ==> ManifestSession::started(args).next(
            ManifestEvent::SettingsRead(Ok(settings)),
        ).stage == (ManifestStage::Failed {
            failure: Failure::Argument(ArgError::Unreadable(args.title.id)),
        }),
{
}

} // verus!
