//! Where the verification options come from.

use crate::arg::{Arg, ArgError, ArgErrorView, ArgView, ContentView};
use crate::files::{ConfigFile, ConfigFileView};
use crate::flags;
use crate::flags::{
    build_verification_options_from_flags, FlagError, PendingConfig, VerificationFlags,
    VerificationFlagsView,
};
use crate::signature::{SignatureView, SubjectView, VerificationConfig, VerificationConfigView};
use vstd::prelude::*;

verus! {

/// What the command line says on verification.
pub struct VerificationArgs {
    pub verification_key: Arg,
    pub verification_annotation: Arg,
    pub cert_email: Arg,
    pub cert_oidc_issuer: Arg,
    pub github_owner: Arg,
    pub github_repo: Arg,
    pub verification_config_path: Arg,
}

pub struct VerificationArgsView {
    pub verification_key: ArgView,
    pub verification_annotation: ArgView,
    pub cert_email: ArgView,
    pub cert_oidc_issuer: ArgView,
    pub github_owner: ArgView,
    pub github_repo: ArgView,
    pub verification_config_path: ArgView,
}

impl View for VerificationArgs {
    type V = VerificationArgsView;

    open spec fn view(&self) -> VerificationArgsView {
        VerificationArgsView {
            verification_key: self.verification_key@,
            verification_annotation: self.verification_annotation@,
            cert_email: self.cert_email@,
            cert_oidc_issuer: self.cert_oidc_issuer@,
            github_owner: self.github_owner@,
            github_repo: self.github_repo@,
            verification_config_path: self.verification_config_path@,
        }
    }
}

impl VerificationArgsView {
    /// The values of the verification flags.
    pub open spec fn flags(self) -> Result<VerificationFlagsView, ArgErrorView> {
        match (
            self.verification_key.many(),
            self.verification_annotation.many(),
            self.cert_email.many(),
            self.cert_oidc_issuer.many(),
            self.github_owner.many(),
            self.github_repo.many(),
        ) {
            (
                Ok(verification_key),
                Ok(verification_annotation),
                Ok(cert_email),
                Ok(cert_oidc_issuer),
                Ok(github_owner),
                Ok(github_repo),
            ) => Ok(
                VerificationFlagsView {
                    verification_key,
                    verification_annotation,
                    cert_email,
                    cert_oidc_issuer,
                    github_owner,
                    github_repo,
                },
            ),
            (Err(error), _, _, _, _, _) => Err(error),
            (_, Err(error), _, _, _, _) => Err(error),
            (_, _, Err(error), _, _, _) => Err(error),
            (_, _, _, Err(error), _, _) => Err(error),
            (_, _, _, _, Err(error), _) => Err(error),
            (_, _, _, _, _, Err(error)) => Err(error),
        }
    }
}

fn read_flags(args: &VerificationArgs) -> (res: Result<VerificationFlags, ArgError>)
    ensures
        match (res, args@.flags()) {
            (Ok(flags), Ok(expected)) => flags@ == expected,
            (Err(error), Err(expected)) => error@ == expected,
            _ => false,
        },
{
    let verification_key = match args.verification_key.many() {
        Ok(values) => values,
        Err(error) => return Err(error),
    };
    let verification_annotation = match args.verification_annotation.many() {
        Ok(values) => values,
        Err(error) => return Err(error),
    };
    let cert_email = match args.cert_email.many() {
        Ok(values) => values,
        Err(error) => return Err(error),
    };
    let cert_oidc_issuer = match args.cert_oidc_issuer.many() {
        Ok(values) => values,
        Err(error) => return Err(error),
    };
    let github_owner = match args.github_owner.many() {
        Ok(values) => values,
        Err(error) => return Err(error),
    };
    let github_repo = match args.github_repo.many() {
        Ok(values) => values,
        Err(error) => return Err(error),
    };
    Ok(
        VerificationFlags {
            verification_key,
            verification_annotation,
            cert_email,
            cert_oidc_issuer,
            github_owner,
            github_repo,
        },
    )
}

/// Why there are no verification options.
pub enum VerificationError {
    Flags(FlagError),
    /// A key file could not be read.
    UnreadableKey { path: String, cause: String },
    /// A configuration file was named beside other verification flags.
    ConflictingConfigPath,
    /// The configuration file could not be read.
    UnreadableConfig(String),
    /// An argument gives no answer.
    Argument(ArgError),
}

pub enum VerificationErrorView {
    Flags(FlagError),
    UnreadableKey { path: Seq<char>, cause: Seq<char> },
    ConflictingConfigPath,
    UnreadableConfig(Seq<char>),
    Argument(ArgErrorView),
}

impl View for VerificationError {
    type V = VerificationErrorView;

    open spec fn view(&self) -> VerificationErrorView {
        match *self {
            VerificationError::Flags(error) => VerificationErrorView::Flags(error),
            VerificationError::UnreadableKey { path, cause } => VerificationErrorView::UnreadableKey {
                path: path@,
                cause: cause@,
            },
            VerificationError::ConflictingConfigPath => VerificationErrorView::ConflictingConfigPath,
            VerificationError::UnreadableConfig(cause) => VerificationErrorView::UnreadableConfig(
                cause@,
            ),
            VerificationError::Argument(error) => VerificationErrorView::Argument(error@),
        }
    }
}

/// How far the search for verification options is.
pub enum OptionsState {
    /// The next key file of the flags is to be read.
    ReadKey { pending: PendingConfig, config_path: Arg },
    /// It is to be found out whether the default configuration file exists.
    ProbeDefaultConfig,
    /// A configuration file is to be read.
    ReadConfig { file: ConfigFile },
    Done { options: Option<VerificationConfig> },
    Failed { error: VerificationError },
}

pub enum OptionsStateView {
    ReadKey {
        signatures: Seq<SignatureView>,
        annotations: Option<Map<Seq<char>, Seq<char>>>,
        unread: Seq<Seq<char>>,
        config_path: ArgView,
    },
    ProbeDefaultConfig,
    ReadConfig { file: ConfigFileView },
    Done { options: Option<VerificationConfigView> },
    Failed { error: VerificationErrorView },
}

impl View for OptionsState {
    type V = OptionsStateView;

    open spec fn view(&self) -> OptionsStateView {
        match *self {
            OptionsState::ReadKey { pending, config_path } => OptionsStateView::ReadKey {
                signatures: pending.signatures(),
                annotations: pending.annotations(),
                unread: pending.unread(),
                config_path: config_path@,
            },
            OptionsState::ProbeDefaultConfig => OptionsStateView::ProbeDefaultConfig,
            OptionsState::ReadConfig { file } => OptionsStateView::ReadConfig { file: file@ },
            OptionsState::Done { options } => OptionsStateView::Done {
                options: options.deep_view(),
            },
            OptionsState::Failed { error } => OptionsStateView::Failed { error: error@ },
        }
    }
}

/// What is to be done next.
pub enum OptionsAction<'a> {
    ReadKey(&'a String),
    ProbeDefaultConfig,
    ReadConfig(&'a ConfigFile),
}

pub enum OptionsActionView {
    ReadKey(Seq<char>),
    ProbeDefaultConfig,
    ReadConfig(ConfigFileView),
}

impl<'a> DeepView for OptionsAction<'a> {
    type V = OptionsActionView;

    open spec fn deep_view(&self) -> OptionsActionView {
        match *self {
            OptionsAction::ReadKey(path) => OptionsActionView::ReadKey(path@),
            OptionsAction::ProbeDefaultConfig => OptionsActionView::ProbeDefaultConfig,
            OptionsAction::ReadConfig(file) => OptionsActionView::ReadConfig(file@),
        }
    }
}

/// What came of an action. An error is the text of its cause.
pub enum OptionsEvent {
    KeyRead(Result<String, String>),
    DefaultConfigProbed(bool),
    ConfigRead(Result<VerificationConfig, String>),
}

pub enum OptionsEventView {
    KeyRead(Result<Seq<char>, Seq<char>>),
    DefaultConfigProbed(bool),
    ConfigRead(Result<VerificationConfigView, Seq<char>>),
}

impl View for OptionsEvent {
    type V = OptionsEventView;

    open spec fn view(&self) -> OptionsEventView {
        match *self {
            OptionsEvent::KeyRead(Ok(key)) => OptionsEventView::KeyRead(Ok(key@)),
            OptionsEvent::KeyRead(Err(cause)) => OptionsEventView::KeyRead(Err(cause@)),
            OptionsEvent::DefaultConfigProbed(present) => OptionsEventView::DefaultConfigProbed(
                present,
            ),
            OptionsEvent::ConfigRead(Ok(config)) => OptionsEventView::ConfigRead(Ok(config@)),
            OptionsEvent::ConfigRead(Err(cause)) => OptionsEventView::ConfigRead(Err(cause@)),
        }
    }
}

/// The end of a search that an argument has stopped.
pub open spec fn no_answer(error: ArgErrorView) -> OptionsStateView {
    OptionsStateView::Failed { error: VerificationErrorView::Argument(error) }
}

/// The state in which `signatures` are known and `unread` key files are left. Only behind the last
/// of them it counts whether a configuration file is named too.
pub open spec fn with_keys(
    signatures: Seq<SignatureView>,
    annotations: Option<Map<Seq<char>, Seq<char>>>,
    unread: Seq<Seq<char>>,
    config_path: ArgView,
) -> OptionsStateView {
    if unread.len() > 0 {
        OptionsStateView::ReadKey { signatures, annotations, unread, config_path }
    } else {
        match config_path.contains() {
            Err(error) => no_answer(error),
            Ok(true) => OptionsStateView::Failed {
                error: VerificationErrorView::ConflictingConfigPath,
            },
            Ok(false) => OptionsStateView::Done { options: Some(flags::all_of(signatures)) },
        }
    }
}

impl VerificationArgsView {
    /// The state from which the search starts.
    pub open spec fn start(self) -> OptionsStateView {
        match self.flags() {
            Err(error) => no_answer(error),
            Ok(flags) => match flags.error() {
                Some(error) => OptionsStateView::Failed {
                    error: VerificationErrorView::Flags(error),
                },
                None => if !flags.unused() {
                    with_keys(
                        flags.signatures(Seq::empty()),
                        flags.annotations(),
                        flags.key_paths(),
                        self.verification_config_path,
                    )
                } else {
                    match self.verification_config_path.one() {
                        Err(error) => no_answer(error),
                        Ok(Some(path)) => OptionsStateView::ReadConfig {
                            file: ConfigFileView::Given(path),
                        },
                        Ok(None) => OptionsStateView::ProbeDefaultConfig,
                    }
                },
            },
        }
    }
}

impl OptionsStateView {
    /// What is to be done in this state; nothing at the end.
    pub open spec fn action(self) -> Option<OptionsActionView> {
        match self {
            OptionsStateView::ReadKey { unread, .. } => if unread.len() > 0 {
                Some(OptionsActionView::ReadKey(unread.first()))
            } else {
                None
            },
            OptionsStateView::ProbeDefaultConfig => Some(OptionsActionView::ProbeDefaultConfig),
            OptionsStateView::ReadConfig { file } => Some(OptionsActionView::ReadConfig(file)),
            OptionsStateView::Done { .. } => None,
            OptionsStateView::Failed { .. } => None,
        }
    }

    /// Whether `event` tells what came of this state's action.
    pub open spec fn awaits(self, event: OptionsEventView) -> bool {
        match (self, event) {
            (OptionsStateView::ReadKey { unread, .. }, OptionsEventView::KeyRead(_)) => unread.len()
                > 0,
            (
                OptionsStateView::ProbeDefaultConfig,
                OptionsEventView::DefaultConfigProbed(_),
            ) => true,
            (OptionsStateView::ReadConfig { .. }, OptionsEventView::ConfigRead(_)) => true,
            _ => false,
        }
    }

    /// The state behind `event`.
    pub open spec fn next(self, event: OptionsEventView) -> OptionsStateView
        recommends
            self.awaits(event),
    {
        match (self, event) {
            (
                OptionsStateView::ReadKey { signatures, annotations, unread, config_path },
                OptionsEventView::KeyRead(Ok(key)),
            ) => with_keys(
                signatures.push(SignatureView::PubKey { owner: None, key, annotations }),
                annotations,
                unread.drop_first(),
                config_path,
            ),
            (
                OptionsStateView::ReadKey { unread, .. },
                OptionsEventView::KeyRead(Err(cause)),
            ) => OptionsStateView::Failed {
                error: VerificationErrorView::UnreadableKey { path: unread.first(), cause },
            },
            (
                OptionsStateView::ProbeDefaultConfig,
                OptionsEventView::DefaultConfigProbed(present),
            ) => if present {
                OptionsStateView::ReadConfig { file: ConfigFileView::Default }
            } else {
                OptionsStateView::Done { options: None }
            },
            (
                OptionsStateView::ReadConfig { .. },
                OptionsEventView::ConfigRead(Ok(config)),
            ) => OptionsStateView::Done { options: Some(config) },
            (
                OptionsStateView::ReadConfig { .. },
                OptionsEventView::ConfigRead(Err(cause)),
            ) => OptionsStateView::Failed { error: VerificationErrorView::UnreadableConfig(cause) },
            _ => self,
        }
    }
}

fn proceed(pending: PendingConfig, config_path: Arg) -> (res: OptionsState)
    ensures
        res@ == with_keys(
            pending.signatures(),
            pending.annotations(),
            pending.unread(),
            config_path@,
        ),
{
    if pending.next_key_path().is_some() {
        OptionsState::ReadKey { pending, config_path }
    } else {
        match config_path.contains() {
            Err(error) => OptionsState::Failed { error: VerificationError::Argument(error) },
            Ok(true) => OptionsState::Failed { error: VerificationError::ConflictingConfigPath },
            Ok(false) => OptionsState::Done { options: Some(pending.finish()) },
        }
    }
}

/// Starts the search for verification options.
pub fn verification_options(args: &VerificationArgs) -> (res: OptionsState)
    ensures
        res@ == args@.start(),
{
    let flags = match read_flags(args) {
        Ok(flags) => flags,
        Err(error) => {
            return OptionsState::Failed { error: VerificationError::Argument(error) };
        },
    };
    match build_verification_options_from_flags(&flags) {
        Err(error) => OptionsState::Failed { error: VerificationError::Flags(error) },
        Ok(Some(pending)) => proceed(pending, args.verification_config_path.duplicate()),
        Ok(None) => match args.verification_config_path.one() {
            Err(error) => OptionsState::Failed { error: VerificationError::Argument(error) },
            Ok(Some(path)) => OptionsState::ReadConfig { file: ConfigFile::Given(path) },
            Ok(None) => OptionsState::ProbeDefaultConfig,
        },
    }
}

impl OptionsState {
    /// What is to be done next; nothing at the end.
    pub fn action(&self) -> (res: Option<OptionsAction<'_>>)
        ensures
            res.deep_view() == self@.action(),
    {
        match self {
            OptionsState::ReadKey { pending, .. } => match pending.next_key_path() {
                Some(path) => Some(OptionsAction::ReadKey(path)),
                None => None,
            },
            OptionsState::ProbeDefaultConfig => Some(OptionsAction::ProbeDefaultConfig),
            OptionsState::ReadConfig { file } => Some(OptionsAction::ReadConfig(file)),
            OptionsState::Done { .. } => None,
            OptionsState::Failed { .. } => None,
        }
    }

    /// Tells whether `event` tells what came of this state's action.
    pub fn awaits(&self, event: &OptionsEvent) -> (res: bool)
        ensures
            res == self@.awaits(event@),
    {
        match (self, event) {
            (
                OptionsState::ReadKey { pending, .. },
                OptionsEvent::KeyRead(_),
            ) => pending.next_key_path().is_some(),
            (OptionsState::ProbeDefaultConfig, OptionsEvent::DefaultConfigProbed(_)) => true,
            (OptionsState::ReadConfig { .. }, OptionsEvent::ConfigRead(_)) => true,
            _ => false,
        }
    }

    /// Takes in what came of this state's action.
    pub fn advance(self, event: OptionsEvent) -> (res: OptionsState)
        requires
            self@.awaits(event@),
        ensures
            res@ == self@.next(event@),
    {
        match (self, event) {
            (
                OptionsState::ReadKey { pending, config_path },
                OptionsEvent::KeyRead(Ok(key)),
            ) => proceed(pending.add_key(key), config_path),
            (
                OptionsState::ReadKey { pending, config_path },
                OptionsEvent::KeyRead(Err(cause)),
            ) => match pending.next_key_path() {
                Some(path) => OptionsState::Failed {
                    error: VerificationError::UnreadableKey { path: path.clone(), cause },
                },
                None => OptionsState::ReadKey { pending, config_path },
            },
            (OptionsState::ProbeDefaultConfig, OptionsEvent::DefaultConfigProbed(present)) => {
                if present {
                    OptionsState::ReadConfig { file: ConfigFile::Default }
                } else {
                    OptionsState::Done { options: None }
                }
            },
            (
                OptionsState::ReadConfig { .. },
                OptionsEvent::ConfigRead(Ok(config)),
            ) => OptionsState::Done { options: Some(config) },
            (
                OptionsState::ReadConfig { .. },
                OptionsEvent::ConfigRead(Err(cause)),
            ) => OptionsState::Failed { error: VerificationError::UnreadableConfig(cause) },
            (state, _) => state,
        }
    }
}

impl OptionsState {
    /// What the search has come to, once it is at its end.
    pub open spec fn result(self) -> Option<Result<Option<VerificationConfig>, VerificationError>> {
        match self {
            OptionsState::Done { options } => Some(Ok(options)),
            OptionsState::Failed { error } => Some(Err(error)),
            _ => None,
        }
    }

    /// What the search has come to, once it is at its end.
    pub fn outcome(self) -> (res: Option<Result<Option<VerificationConfig>, VerificationError>>)
        ensures
            res == self.result(),
    {
        match self {
            OptionsState::Done { options } => Some(Ok(options)),
            OptionsState::Failed { error } => Some(Err(error)),
            _ => None,
        }
    }
}

/// What the outside answers to the actions of one search.
pub struct OptionsWorld {
    pub key_at: spec_fn(Seq<char>) -> Result<Seq<char>, Seq<char>>,
    pub default_config_present: bool,
    pub config_at: spec_fn(ConfigFileView) -> Result<VerificationConfigView, Seq<char>>,
}

/// What the key files at `paths` hold, or the first of them that cannot be read, with the cause.
pub open spec fn read_keys(
    paths: Seq<Seq<char>>,
    key_at: spec_fn(Seq<char>) -> Result<Seq<char>, Seq<char>>,
) -> Result<Seq<Seq<char>>, (Seq<char>, Seq<char>)>
    decreases paths.len(),
{
    if paths.len() == 0 {
        Ok(Seq::empty())
    } else {
        match key_at(paths.first()) {
            Err(cause) => Err((paths.first(), cause)),
            Ok(key) => match read_keys(paths.drop_first(), key_at) {
                Err(failure) => Err(failure),
                Ok(keys) => Ok(seq![key] + keys),
            },
        }
    }
}

impl OptionsWorld {
    /// What comes of an action.
    pub open spec fn answer(self, action: OptionsActionView) -> OptionsEventView {
        match action {
            OptionsActionView::ReadKey(path) => OptionsEventView::KeyRead((self.key_at)(path)),
            OptionsActionView::ProbeDefaultConfig => OptionsEventView::DefaultConfigProbed(
                self.default_config_present,
            ),
            OptionsActionView::ReadConfig(file) => OptionsEventView::ConfigRead(
                (self.config_at)(file),
            ),
        }
    }

    /// What reading a configuration file comes to.
    pub open spec fn config_outcome(self, file: ConfigFileView) -> Result<
        Option<VerificationConfigView>,
        VerificationErrorView,
    > {
        match (self.config_at)(file) {
            Ok(config) => Ok(Some(config)),
            Err(cause) => Err(VerificationErrorView::UnreadableConfig(cause)),
        }
    }

    /// The verification options that the flags ask for.
    pub open spec fn options_of_flags(
        self,
        flags: VerificationFlagsView,
        config_path: ArgView,
    ) -> Result<Option<VerificationConfigView>, VerificationErrorView> {
        match read_keys(flags.key_paths(), self.key_at) {
            Err((path, cause)) => Err(VerificationErrorView::UnreadableKey { path, cause }),
            Ok(keys) => match config_path.contains() {
                Err(error) => Err(VerificationErrorView::Argument(error)),
                Ok(true) => Err(VerificationErrorView::ConflictingConfigPath),
                Ok(false) => Ok(Some(flags::all_of(flags.signatures(keys)))),
            },
        }
    }

    /// The verification options that a configuration file holds.
    pub open spec fn options_of_file(self, config_path: ArgView) -> Result<
        Option<VerificationConfigView>,
        VerificationErrorView,
    > {
        match config_path.one() {
            Err(error) => Err(VerificationErrorView::Argument(error)),
            Ok(Some(path)) => self.config_outcome(ConfigFileView::Given(path)),
            Ok(None) => if self.default_config_present {
                self.config_outcome(ConfigFileView::Default)
            } else {
                Ok(None)
            },
        }
    }

    /// The verification options that `args` ask for.
    pub open spec fn options(self, args: VerificationArgsView) -> Result<
        Option<VerificationConfigView>,
        VerificationErrorView,
    > {
        match args.flags() {
            Err(error) => Err(VerificationErrorView::Argument(error)),
            Ok(flags) => if flags.error() is Some {
                Err(VerificationErrorView::Flags(flags.error()->0))
            } else if !flags.unused() {
                self.options_of_flags(flags, args.verification_config_path)
            } else {
                self.options_of_file(args.verification_config_path)
            },
        }
    }
}

impl OptionsStateView {
    /// How many actions may still come.
    pub open spec fn steps_left(self) -> nat {
        match self {
            OptionsStateView::ReadKey { unread, .. } => unread.len(),
            OptionsStateView::ProbeDefaultConfig => 2,
            OptionsStateView::ReadConfig { .. } => 1,
            OptionsStateView::Done { .. } => 0,
            OptionsStateView::Failed { .. } => 0,
        }
    }

    /// The actions that the search asks for in `world`, from here on.
    pub open spec fn actions(self, world: OptionsWorld) -> Seq<OptionsActionView>
        decreases self.steps_left(),
    {
        match self.action() {
            Some(action) => seq![action] + self.next(world.answer(action)).actions(world),
            None => Seq::empty(),
        }
    }

    /// What the search comes to in `world`.
    pub open spec fn run(self, world: OptionsWorld) -> OptionsStateView
        decreases self.steps_left(),
    {
        match self.action() {
            Some(action) => self.next(world.answer(action)).run(world),
            None => self,
        }
    }
}

/// Every answer brings the search closer to its end.
pub proof fn verification_search_ends(state: OptionsStateView, event: OptionsEventView)
    requires
        state.awaits(event),
    ensures
        state.next(event).steps_left() < state.steps_left(),
{
}

proof fn lemma_run_keys(
    world: OptionsWorld,
    signatures: Seq<SignatureView>,
    annotations: Option<Map<Seq<char>, Seq<char>>>,
    unread: Seq<Seq<char>>,
    config_path: ArgView,
)
    ensures
        with_keys(signatures, annotations, unread, config_path).run(world) == match read_keys(
            unread,
            world.key_at,
        ) {
            Err((path, cause)) => OptionsStateView::Failed {
                error: VerificationErrorView::UnreadableKey { path, cause },
            },
            Ok(keys) => with_keys(
                signatures + flags::key_signatures(keys, annotations),
                annotations,
                Seq::empty(),
                config_path,
            ),
        },
    decreases unread.len(),
{
    if unread.len() == 0 {
        assert(signatures + flags::key_signatures(Seq::empty(), annotations) =~= signatures);
    } else {
        match (world.key_at)(unread.first()) {
            Err(cause) => {
                reveal_with_fuel(OptionsStateView::run, 2);
            },
            Ok(key) => {
                let longer = signatures.push(
                    SignatureView::PubKey { owner: None, key, annotations },
                );
                lemma_run_keys(world, longer, annotations, unread.drop_first(), config_path);
                if let Ok(keys) = read_keys(unread.drop_first(), world.key_at) {
                    assert(longer + flags::key_signatures(keys, annotations) =~= signatures
                        + flags::key_signatures(seq![key] + keys, annotations));
                }
            },
        }
    }
}

/// The search comes to the verification options that its arguments ask for.
pub proof fn verification_search_finds_options(args: VerificationArgsView, world: OptionsWorld)
    ensures
        args.start().run(world) == match world.options(args) {
            Ok(options) => OptionsStateView::Done { options },
            Err(error) => OptionsStateView::Failed { error },
        },
{
    if let Ok(flags) = args.flags() {
        if flags.error() is None && !flags.unused() {
            let none = Seq::<Seq<char>>::empty();
            let annotations = flags.annotations();
            lemma_run_keys(
                world,
                flags.signatures(none),
                annotations,
                flags.key_paths(),
                args.verification_config_path,
            );
            if let Ok(keys) = read_keys(flags.key_paths(), world.key_at) {
                assert(flags.signatures(none) + flags::key_signatures(keys, annotations)
                    =~= flags.signatures(keys));
            }
        } else {
            reveal_with_fuel(OptionsStateView::run, 3);
        }
    }
}

/// Verification flags and a configuration file exclude each other.
pub proof fn flags_exclude_config_path(args: VerificationArgsView, world: OptionsWorld)
    requires
        args.flags() matches Ok(flags) && !flags.unused(),
        args.verification_config_path.contains() == Ok::<bool, ArgErrorView>(true),
    ensures
        world.options(args) is Err,
{
}

/// Without verification flags, a configuration file that is named is the one that counts,
/// whatever stands at the default place.
pub proof fn named_config_counts(
    args: VerificationArgsView,
    world: OptionsWorld,
    path: Seq<char>,
)
    requires
        args.flags() matches Ok(flags) && flags.unused(),
        args.verification_config_path.one() == Ok::<Option<Seq<char>>, ArgErrorView>(Some(path)),
    ensures
        world.options(args) == world.config_outcome(ConfigFileView::Given(path)),
{
}

/// Where a verification flag is in use or a configuration file is named, the default configuration
/// has no say: neither whether it is there nor what it holds.
pub proof fn default_config_has_no_say(
    args: VerificationArgsView,
    one: OptionsWorld,
    other: OptionsWorld,
)
    requires
        (args.flags() matches Ok(flags) ==> !flags.unused()) || (
        args.verification_config_path.one() matches Ok(path) ==> path is Some),
        one.key_at == other.key_at,
        forall|path: Seq<char>|
            #![trigger (one.config_at)(ConfigFileView::Given(path))]
            (one.config_at)(ConfigFileView::Given(path)) == (other.config_at)(
                ConfigFileView::Given(path),
            ),
    ensures
        one.options(args) == other.options(args),
{
    if let Ok(Some(path)) = args.verification_config_path.one() {
        let file = ConfigFileView::Given(path);
        assert((one.config_at)(file) == (other.config_at)(file));
    }
}

/// There are no verification options, and no error, where nothing asks for them: no flag, no
/// configuration file by name, and none at the default place.
pub proof fn no_options_unless_asked_for(args: VerificationArgsView, world: OptionsWorld)
    requires
        args.flags() matches Ok(flags) && flags.unused(),
        args.verification_config_path.one() == Ok::<Option<Seq<char>>, ArgErrorView>(None),
        !world.default_config_present,
    ensures
        world.options(args) == Ok::<Option<VerificationConfigView>, VerificationErrorView>(None),
{
}

/// Whether `values` are all that can be had of an argument: none where it is not there, and its own
/// where it has some.
pub open spec fn holds(arg: ArgView, values: Option<Seq<Seq<char>>>) -> bool {
    ||| arg.content is Absent && values is None
    ||| arg.content matches ContentView::Values(given) && values == Some(given)
}

/// Each verification flag has the values of the argument of its name, and there are flags exactly
/// where all of these arguments can be read.
pub proof fn flags_hold_what_the_arguments_hold(args: VerificationArgsView)
    ensures
        args.flags() matches Ok(flags) ==> {
            &&& holds(args.verification_key, flags.verification_key)
            &&& holds(args.verification_annotation, flags.verification_annotation)
            &&& holds(args.cert_email, flags.cert_email)
            &&& holds(args.cert_oidc_issuer, flags.cert_oidc_issuer)
            &&& holds(args.github_owner, flags.github_owner)
            &&& holds(args.github_repo, flags.github_repo)
        },
        args.flags() is Ok == {
            &&& args.verification_key.content is Absent || args.verification_key.content is Values
            &&& args.verification_annotation.content is Absent
                || args.verification_annotation.content is Values
            &&& args.cert_email.content is Absent || args.cert_email.content is Values
            &&& args.cert_oidc_issuer.content is Absent || args.cert_oidc_issuer.content is Values
            &&& args.github_owner.content is Absent || args.github_owner.content is Values
            &&& args.github_repo.content is Absent || args.github_repo.content is Values
        },
{
}

proof fn lemma_all_keys_read(
    paths: Seq<Seq<char>>,
    key_at: spec_fn(Seq<char>) -> Result<Seq<char>, Seq<char>>,
    keys: Seq<Seq<char>>,
)
    requires
        paths.len() == keys.len(),
        forall|i: int|
            0 <= i < paths.len() ==> key_at(#[trigger] paths[i]) == Ok::<Seq<char>, Seq<char>>(
                keys[i],
            ),
    ensures
        read_keys(paths, key_at) == Ok::<Seq<Seq<char>>, (Seq<char>, Seq<char>)>(keys),
    decreases paths.len(),
{
    if paths.len() > 0 {
        assert(key_at(paths[0]) == Ok::<Seq<char>, Seq<char>>(keys[0]));
        assert forall|i: int| 0 <= i < paths.drop_first().len() implies key_at(
            #[trigger] paths.drop_first()[i],
        ) == Ok::<Seq<char>, Seq<char>>(keys.drop_first()[i]) by {
            assert(key_at(paths[i + 1]) == Ok::<Seq<char>, Seq<char>>(keys[i + 1]));
        }
        lemma_all_keys_read(paths.drop_first(), key_at, keys.drop_first());
        assert(seq![keys[0]] + keys.drop_first() =~= keys);
    } else {
        assert(keys =~= Seq::empty());
    }
}

proof fn lemma_first_unreadable_key(
    paths: Seq<Seq<char>>,
    key_at: spec_fn(Seq<char>) -> Result<Seq<char>, Seq<char>>,
    bad: int,
    cause: Seq<char>,
)
    requires
        0 <= bad < paths.len(),
        forall|i: int| 0 <= i < bad ==> key_at(#[trigger] paths[i]) is Ok,
        key_at(paths[bad]) == Err::<Seq<char>, Seq<char>>(cause),
    ensures
        read_keys(paths, key_at) == Err::<Seq<Seq<char>>, (Seq<char>, Seq<char>)>(
            (paths[bad], cause),
        ),
    decreases bad,
{
    if bad > 0 {
        assert(key_at(paths[0]) is Ok);
        assert forall|i: int| 0 <= i < bad - 1 implies key_at(
            #[trigger] paths.drop_first()[i],
        ) is Ok by {
            assert(key_at(paths[i + 1]) is Ok);
        }
        lemma_first_unreadable_key(paths.drop_first(), key_at, bad - 1, cause);
    }
}

/// Flags that fit together come to a configuration that asks for all of their signatures, with the
/// contents of the key files for the keys; unless a configuration file is named too.
pub proof fn passed_flags_are_asked_for(
    args: VerificationArgsView,
    world: OptionsWorld,
    flags: VerificationFlagsView,
    keys: Seq<Seq<char>>,
)
    requires
        args.flags() == Ok::<VerificationFlagsView, ArgErrorView>(flags),
        flags.error() is None,
        !flags.unused(),
        flags.key_paths().len() == keys.len(),
        forall|i: int|
            0 <= i < keys.len() ==> (world.key_at)(#[trigger] flags.key_paths()[i]) == Ok::<
                Seq<char>,
                Seq<char>,
            >(keys[i]),
    ensures
        args.verification_config_path.content is Absent ==> {
            &&& args.start().run(world) matches OptionsStateView::Done { options: Some(config) }
            &&& config.any_of is None
            &&& flags.signatures(keys).len() > 0 ==> config.all_of == Some(flags.signatures(keys))
            &&& flags.signatures(keys).len() == 0 ==> config.all_of is None
        },
        args.verification_config_path.content is Values
            || args.verification_config_path.content is Foreign ==> args.start().run(world) == (
        OptionsStateView::Failed { error: VerificationErrorView::ConflictingConfigPath }),
{
    verification_search_finds_options(args, world);
    lemma_all_keys_read(flags.key_paths(), world.key_at, keys);
}

/// The first key file that cannot be read stops the search, with its path and the cause.
pub proof fn unreadable_key_stops_the_search(
    args: VerificationArgsView,
    world: OptionsWorld,
    flags: VerificationFlagsView,
    bad: int,
    cause: Seq<char>,
)
    requires
        args.flags() == Ok::<VerificationFlagsView, ArgErrorView>(flags),
        flags.error() is None,
        !flags.unused(),
        0 <= bad < flags.key_paths().len(),
        forall|i: int| 0 <= i < bad ==> (world.key_at)(#[trigger] flags.key_paths()[i]) is Ok,
        (world.key_at)(flags.key_paths()[bad]) == Err::<Seq<char>, Seq<char>>(cause),
    ensures
        args.start().run(world) == (OptionsStateView::Failed {
            error: VerificationErrorView::UnreadableKey { path: flags.key_paths()[bad], cause },
        }),
{
    verification_search_finds_options(args, world);
    lemma_first_unreadable_key(flags.key_paths(), world.key_at, bad, cause);
}

/// A certificate email and an OIDC issuer on their own come to one signature: by that issuer, and
/// of just that email.
pub proof fn email_and_issuer_are_asked_for(
    args: VerificationArgsView,
    world: OptionsWorld,
    emails: Seq<Seq<char>>,
    issuers: Seq<Seq<char>>,
)
    requires
        args.cert_email.content == ContentView::Values(emails),
        args.cert_oidc_issuer.content == ContentView::Values(issuers),
        args.verification_key.content is Absent,
        args.verification_annotation.content is Absent,
        args.github_owner.content is Absent,
        args.github_repo.content is Absent,
        args.verification_config_path.content is Absent,
    ensures
        args.start().run(world) matches OptionsStateView::Done { options: Some(config) }
            && config.any_of is None && config.all_of == Some(
            seq![
                SignatureView::GenericIssuer {
                    issuer: issuers.flatten(),
                    subject: SubjectView::Equal(emails.flatten()),
                    annotations: None,
                },
            ],
        ),
{
    let flags = args.flags()->Ok_0;
    flags_hold_what_the_arguments_hold(args);
    flags::keys_stand_behind_the_others(flags, Seq::empty(), 0);
    flags::email_and_issuer_ask_for_their_signature(flags, emails, issuers, Seq::empty());
    assert(flags.signatures(Seq::empty()) =~= seq![flags.signatures(Seq::empty())[0]]);
    passed_flags_are_asked_for(args, world, flags, Seq::empty());
}

/// A GitHub owner on its own, or with a repository, comes to one signature of these.
pub proof fn github_owner_is_asked_for(
    args: VerificationArgsView,
    world: OptionsWorld,
    owners: Seq<Seq<char>>,
)
    requires
        args.github_owner.content == ContentView::Values(owners),
        args.github_repo.content is Absent || args.github_repo.content is Values,
        args.verification_key.content is Absent,
        args.verification_annotation.content is Absent,
        args.cert_email.content is Absent,
        args.cert_oidc_issuer.content is Absent,
        args.verification_config_path.content is Absent,
    ensures
        args.start().run(world) matches OptionsStateView::Done { options: Some(config) }
            && config.any_of is None && config.all_of == Some(
            seq![
                SignatureView::GithubAction {
                    owner: owners.flatten(),
                    repo: if args.github_repo.content is Values {
                        Some(args.github_repo.content->Values_0.flatten())
                    } else {
                        None
                    },
                    annotations: None,
                },
            ],
        ),
{
    let flags = args.flags()->Ok_0;
    flags_hold_what_the_arguments_hold(args);
    flags::keys_stand_behind_the_others(flags, Seq::empty(), 0);
    flags::owner_asks_for_its_signature(flags, owners, Seq::empty());
    assert(flags.signatures(Seq::empty()) =~= seq![flags.signatures(Seq::empty())[0]]);
    passed_flags_are_asked_for(args, world, flags, Seq::empty());
}

/// Flags that do not fit together stop the search before its first action.
pub proof fn unfit_flags_stop_the_search(
    args: VerificationArgsView,
    flags: VerificationFlagsView,
    error: FlagError,
)
    requires
        args.flags() == Ok::<VerificationFlagsView, ArgErrorView>(flags),
        flags.error() == Some(error),
    ensures
        args.start() == (OptionsStateView::Failed { error: VerificationErrorView::Flags(error) }),
{
}

/// Without flags, the configuration file that is named is read, and nothing else is done.
pub proof fn named_configuration_is_read(
    args: VerificationArgsView,
    world: OptionsWorld,
    flags: VerificationFlagsView,
    paths: Seq<Seq<char>>,
)
    requires
        args.flags() == Ok::<VerificationFlagsView, ArgErrorView>(flags),
        flags.unused(),
        args.verification_config_path.content == ContentView::Values(paths),
        paths.len() > 0,
    ensures
        args.start().actions(world) == seq![
            OptionsActionView::ReadConfig(ConfigFileView::Given(paths[0])),
        ],
        (world.config_at)(ConfigFileView::Given(paths[0])) matches Ok(config) ==> args.start().run(
            world,
        ) == (OptionsStateView::Done { options: Some(config) }),
        (world.config_at)(ConfigFileView::Given(paths[0])) matches Err(cause) ==> args.start().run(
            world,
        ) == (OptionsStateView::Failed { error: VerificationErrorView::UnreadableConfig(cause) }),
{
    reveal_with_fuel(OptionsStateView::run, 3);
    reveal_with_fuel(OptionsStateView::actions, 3);
    assert(args.start().actions(world) =~= seq![
        OptionsActionView::ReadConfig(ConfigFileView::Given(paths[0])),
    ]);
}

/// Without flags and without a name, the configuration file at the default place is read where it
/// exists, and there are no options where it does not.
pub proof fn default_configuration_is_read(
    args: VerificationArgsView,
    world: OptionsWorld,
    flags: VerificationFlagsView,
)
    requires
        args.flags() == Ok::<VerificationFlagsView, ArgErrorView>(flags),
        flags.unused(),
        args.verification_config_path.content is Absent
            || args.verification_config_path.content == ContentView::Values(Seq::empty()),
    ensures
        !world.default_config_present ==> {
            &&& args.start().actions(world) == seq![OptionsActionView::ProbeDefaultConfig]
            &&& args.start().run(world) == (OptionsStateView::Done { options: None })
        },
        world.default_config_present ==> args.start().actions(world) == seq![
            OptionsActionView::ProbeDefaultConfig,
            OptionsActionView::ReadConfig(ConfigFileView::Default),
        ],
        world.default_config_present ==> ((world.config_at)(ConfigFileView::Default) matches Ok(
            config,
        ) ==> args.start().run(world) == (OptionsStateView::Done { options: Some(config) })),
        world.default_config_present ==> ((world.config_at)(ConfigFileView::Default) matches Err(
            cause,
        ) ==> args.start().run(world) == (OptionsStateView::Failed {
            error: VerificationErrorView::UnreadableConfig(cause),
        })),
{
    reveal_with_fuel(OptionsStateView::run, 4);
    reveal_with_fuel(OptionsStateView::actions, 4);
    if world.default_config_present {
        assert(args.start().actions(world) =~= seq![
            OptionsActionView::ProbeDefaultConfig,
            OptionsActionView::ReadConfig(ConfigFileView::Default),
        ]);
    } else {
        assert(args.start().actions(world) =~= seq![OptionsActionView::ProbeDefaultConfig]);
    }
}

proof fn lemma_key_actions(
    signatures: Seq<SignatureView>,
    annotations: Option<Map<Seq<char>, Seq<char>>>,
    unread: Seq<Seq<char>>,
    config_path: ArgView,
    world: OptionsWorld,
    i: int,
)
    requires
        0 <= i < with_keys(signatures, annotations, unread, config_path).actions(world).len(),
    ensures
        i < unread.len(),
        with_keys(signatures, annotations, unread, config_path).actions(world)[i]
            == OptionsActionView::ReadKey(unread[i]),
    decreases unread.len(),
{
    if unread.len() > 0 && i > 0 {
        if let Ok(key) = (world.key_at)(unread.first()) {
            lemma_key_actions(
                signatures.push(SignatureView::PubKey { owner: None, key, annotations }),
                annotations,
                unread.drop_first(),
                config_path,
                world,
                i - 1,
            );
        } else {
            reveal_with_fuel(OptionsStateView::actions, 2);
        }
    }
}

/// With flags in use, nothing is done but to read the key files that were passed, in their order.
pub proof fn only_key_files_are_read(
    args: VerificationArgsView,
    world: OptionsWorld,
    flags: VerificationFlagsView,
    i: int,
)
    requires
        args.flags() == Ok::<VerificationFlagsView, ArgErrorView>(flags),
        !flags.unused(),
        0 <= i < args.start().actions(world).len(),
    ensures
        flags.verification_key matches Some(paths) && i < paths.len()
            && args.start().actions(world)[i] == OptionsActionView::ReadKey(paths[i]),
{
    if flags.error() is None {
        lemma_key_actions(
            flags.signatures(Seq::empty()),
            flags.annotations(),
            flags.key_paths(),
            args.verification_config_path,
            world,
            i,
        );
    }
}

/// The search takes in exactly the answers to what it asks for, and asks for nothing at its end.
pub proof fn verification_search_takes_answers_to_its_action(
    state: OptionsStateView,
    event: OptionsEventView,
)
    ensures
        state.awaits(event) == match state.action() {
            Some(OptionsActionView::ReadKey(_)) => event is KeyRead,
            Some(OptionsActionView::ProbeDefaultConfig) => event is DefaultConfigProbed,
            Some(OptionsActionView::ReadConfig(_)) => event is ConfigRead,
            None => false,
        },
        state is Done || state is Failed ==> state.action() is None,
{
}

/// The outcome of a search is what it ended with, and there is none before its end.
pub proof fn verification_outcome_is_the_end(
    state: OptionsState,
    options: Option<VerificationConfig>,
    error: VerificationError,
)
    ensures
        state.result() is Some == (state is Done || state is Failed),
        (OptionsState::Done { options }).result() == Some(
            Ok::<Option<VerificationConfig>, VerificationError>(options),
        ),
        (OptionsState::Failed { error }).result() == Some(
            Err::<Option<VerificationConfig>, VerificationError>(error),
        ),
{
}

/// States, events, actions and errors show their own parts.
pub proof fn verification_shows_its_parts(
    args: VerificationArgs,
    pending: PendingConfig,
    config_path: Arg,
    file: ConfigFile,
    options: Option<VerificationConfig>,
    config: VerificationConfig,
    path: String,
    cause: String,
    flag_error: FlagError,
    error: VerificationError,
    arg_error: ArgError,
    present: bool,
)
    ensures
        args@.verification_key == args.verification_key@,
        args@.verification_annotation == args.verification_annotation@,
        args@.cert_email == args.cert_email@,
        args@.cert_oidc_issuer == args.cert_oidc_issuer@,
        args@.github_owner == args.github_owner@,
        args@.github_repo == args.github_repo@,
        args@.verification_config_path == args.verification_config_path@,
        (OptionsState::ReadKey { pending, config_path })@ == (OptionsStateView::ReadKey {
            signatures: pending.signatures(),
            annotations: pending.annotations(),
            unread: pending.unread(),
            config_path: config_path@,
        }),
        OptionsState::ProbeDefaultConfig@ == OptionsStateView::ProbeDefaultConfig,
        (OptionsState::ReadConfig { file })@ == (OptionsStateView::ReadConfig { file: file@ }),
        (OptionsState::Done { options })@ == (OptionsStateView::Done {
            options: options.deep_view(),
        }),
        (OptionsState::Failed { error })@ == (OptionsStateView::Failed { error: error@ }),
        OptionsAction::ReadKey(&path).deep_view() == OptionsActionView::ReadKey(path@),
        OptionsAction::ProbeDefaultConfig.deep_view() == OptionsActionView::ProbeDefaultConfig,
        OptionsAction::ReadConfig(&file).deep_view() == OptionsActionView::ReadConfig(file@),
        OptionsEvent::KeyRead(Ok(path))@ == OptionsEventView::KeyRead(Ok(path@)),
        OptionsEvent::KeyRead(Err(cause))@ == OptionsEventView::KeyRead(Err(cause@)),
        OptionsEvent::DefaultConfigProbed(present)@ == OptionsEventView::DefaultConfigProbed(
            present,
        ),
        OptionsEvent::ConfigRead(Ok(config))@ == OptionsEventView::ConfigRead(Ok(config@)),
        OptionsEvent::ConfigRead(Err(cause))@ == OptionsEventView::ConfigRead(Err(cause@)),
        VerificationError::Flags(flag_error)@ == VerificationErrorView::Flags(flag_error),
        (VerificationError::UnreadableKey { path, cause })@ == (
        VerificationErrorView::UnreadableKey { path: path@, cause: cause@ }),
        VerificationError::ConflictingConfigPath@ == VerificationErrorView::ConflictingConfigPath,
        VerificationError::UnreadableConfig(cause)@ == VerificationErrorView::UnreadableConfig(
            cause@,
        ),
        VerificationError::Argument(arg_error)@ == VerificationErrorView::Argument(arg_error@),
{
}

/// An argument on verification that cannot be read never passes for one that is not there: the
/// search fails with it, once it is needed.
pub proof fn unreadable_verification_argument_is_no_absent_one(
    args: VerificationArgsView,
    world: OptionsWorld,
    keys: Seq<Seq<char>>,
)
    ensures
        args.flags() matches Err(error) ==> args.start() == (OptionsStateView::Failed {
            error: VerificationErrorView::Argument(error),
        }),
        (args.flags() matches Ok(flags) && flags.unused() && (
        args.verification_config_path.content is Unknown
            || args.verification_config_path.content is Foreign)) ==> args.start() == (
        OptionsStateView::Failed {
            error: VerificationErrorView::Argument(
                ArgErrorView::Unreadable(args.verification_config_path.id),
            ),
        }),
        (args.flags() matches Ok(flags) && !flags.unused() && flags.error() is None
            && flags.key_paths().len() == keys.len() && (forall|i: int|
            0 <= i < keys.len() ==> (world.key_at)(#[trigger] flags.key_paths()[i]) == Ok::<
                Seq<char>,
                Seq<char>,
            >(keys[i])) && args.verification_config_path.content is Unknown) ==> args.start().run(
            world,
        ) == (OptionsStateView::Failed {
            error: VerificationErrorView::Argument(
                ArgErrorView::Unreadable(args.verification_config_path.id),
            ),
        }),
{
    verification_search_finds_options(args, world);
    if let Ok(flags) = args.flags() {
        if flags.key_paths().len() == keys.len() && (forall|i: int|
            0 <= i < keys.len() ==> (world.key_at)(#[trigger] flags.key_paths()[i]) == Ok::<
                Seq<char>,
                Seq<char>,
            >(keys[i])) {
            lemma_all_keys_read(flags.key_paths(), world.key_at, keys);
        }
    }
}

/// The error of a flag that cannot be read is that of the argument itself.
pub proof fn unreadable_flag_is_named(args: VerificationArgsView)
    ensures
        args.flags() matches Err(error) ==> {
            ||| error == ArgErrorView::Unreadable(args.verification_key.id)
            ||| error == ArgErrorView::Unreadable(args.verification_annotation.id)
            ||| error == ArgErrorView::Unreadable(args.cert_email.id)
            ||| error == ArgErrorView::Unreadable(args.cert_oidc_issuer.id)
            ||| error == ArgErrorView::Unreadable(args.github_owner.id)
            ||| error == ArgErrorView::Unreadable(args.github_repo.id)
        },
{
}

} // verus!
