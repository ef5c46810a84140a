//! Which sources and which Docker configuration a registry is spoken to with.

use crate::arg::{Arg, ArgError, ArgErrorView, ArgView, ContentView};
use crate::files::{ConfigFile, ConfigFileView};
use vstd::prelude::*;

verus! {

/// What the command line says on remote servers.
pub struct RemoteArgs {
    pub sources_path: Arg,
    pub docker_config_json_path: Arg,
}

pub struct RemoteArgsView {
    pub sources_path: ArgView,
    pub docker_config_json_path: ArgView,
}

impl View for RemoteArgs {
    type V = RemoteArgsView;

    open spec fn view(&self) -> RemoteArgsView {
        RemoteArgsView {
            sources_path: self.sources_path@,
            docker_config_json_path: self.docker_config_json_path@,
        }
    }
}

/// What a registry is spoken to with. `S` is a sources file's contents, `D` those of a Docker
/// configuration.
pub struct RemoteOptions<S, D> {
    pub sources: Option<S>,
    pub docker_config: Option<D>,
}

/// Why there are no options.
pub enum RemoteError {
    /// A file could not be read.
    Outside(String),
    /// An argument gives no answer.
    Argument(ArgError),
}

pub enum RemoteErrorView {
    Outside(Seq<char>),
    Argument(ArgErrorView),
}

impl View for RemoteError {
    type V = RemoteErrorView;

    open spec fn view(&self) -> RemoteErrorView {
        match *self {
            RemoteError::Outside(cause) => RemoteErrorView::Outside(cause@),
            RemoteError::Argument(error) => RemoteErrorView::Argument(error@),
        }
    }
}

/// How far the search for the options is.
pub enum RemoteState<S, D> {
    /// It is to be found out whether the default sources file exists.
    ProbeSources { docker_path: Arg },
    /// A sources file is to be read.
    ReadSources { file: ConfigFile, docker_path: Arg },
    /// It is to be found out whether the user has a home directory.
    LocateHome { sources: Option<S> },
    /// It is to be found out whether the Docker configuration exists there.
    ProbeDockerConfig { sources: Option<S> },
    /// A Docker configuration is to be read.
    ReadDockerConfig { file: ConfigFile, sources: Option<S> },
    Done { options: RemoteOptions<S, D> },
    Failed { error: RemoteError },
}

pub enum RemoteStateView<S, D> {
    ProbeSources { docker_path: ArgView },
    ReadSources { file: ConfigFileView, docker_path: ArgView },
    LocateHome { sources: Option<S> },
    ProbeDockerConfig { sources: Option<S> },
    ReadDockerConfig { file: ConfigFileView, sources: Option<S> },
    Done { options: RemoteOptions<S, D> },
    Failed { error: RemoteErrorView },
}

impl<S, D> View for RemoteState<S, D> {
    type V = RemoteStateView<S, D>;

    open spec fn view(&self) -> RemoteStateView<S, D> {
        match *self {
            RemoteState::ProbeSources { docker_path } => RemoteStateView::ProbeSources {
                docker_path: docker_path@,
            },
            RemoteState::ReadSources { file, docker_path } => RemoteStateView::ReadSources {
                file: file@,
                docker_path: docker_path@,
            },
            RemoteState::LocateHome { sources } => RemoteStateView::LocateHome { sources },
            RemoteState::ProbeDockerConfig { sources } => RemoteStateView::ProbeDockerConfig {
                sources,
            },
            RemoteState::ReadDockerConfig { file, sources } => RemoteStateView::ReadDockerConfig {
                file: file@,
                sources,
            },
            RemoteState::Done { options } => RemoteStateView::Done { options },
            RemoteState::Failed { error } => RemoteStateView::Failed { error: error@ },
        }
    }
}

/// What is to be done next.
pub enum RemoteAction<'a> {
    ProbeSources,
    ReadSources(&'a ConfigFile),
    LocateHome,
    ProbeDockerConfig,
    ReadDockerConfig(&'a ConfigFile),
}

pub enum RemoteActionView {
    ProbeSources,
    ReadSources(ConfigFileView),
    LocateHome,
    ProbeDockerConfig,
    ReadDockerConfig(ConfigFileView),
}

impl<'a> DeepView for RemoteAction<'a> {
    type V = RemoteActionView;

    open spec fn deep_view(&self) -> RemoteActionView {
        match *self {
            RemoteAction::ProbeSources => RemoteActionView::ProbeSources,
            RemoteAction::ReadSources(file) => RemoteActionView::ReadSources(file@),
            RemoteAction::LocateHome => RemoteActionView::LocateHome,
            RemoteAction::ProbeDockerConfig => RemoteActionView::ProbeDockerConfig,
            RemoteAction::ReadDockerConfig(file) => RemoteActionView::ReadDockerConfig(file@),
        }
    }
}

/// What came of an action. An error is the text of its cause.
pub enum RemoteEvent<S, D> {
    SourcesProbed(bool),
    SourcesRead(Result<S, String>),
    HomeLocated(bool),
    DockerConfigProbed(bool),
    DockerConfigRead(Result<D, String>),
}

pub enum RemoteEventView<S, D> {
    SourcesProbed(bool),
    SourcesRead(Result<S, Seq<char>>),
    HomeLocated(bool),
    DockerConfigProbed(bool),
    DockerConfigRead(Result<D, Seq<char>>),
}

impl<S, D> View for RemoteEvent<S, D> {
    type V = RemoteEventView<S, D>;

    open spec fn view(&self) -> RemoteEventView<S, D> {
        match *self {
            RemoteEvent::SourcesProbed(present) => RemoteEventView::SourcesProbed(present),
            RemoteEvent::SourcesRead(Ok(sources)) => RemoteEventView::SourcesRead(Ok(sources)),
            RemoteEvent::SourcesRead(Err(cause)) => RemoteEventView::SourcesRead(Err(cause@)),
            RemoteEvent::HomeLocated(found) => RemoteEventView::HomeLocated(found),
            RemoteEvent::DockerConfigProbed(present) => RemoteEventView::DockerConfigProbed(
                present,
            ),
            RemoteEvent::DockerConfigRead(Ok(config)) => RemoteEventView::DockerConfigRead(
                Ok(config),
            ),
            RemoteEvent::DockerConfigRead(Err(cause)) => RemoteEventView::DockerConfigRead(
                Err(cause@),
            ),
        }
    }
}

/// The state in which the sources are known. Only here it counts what the argument for the Docker
/// configuration says.
pub open spec fn with_sources<S, D>(
    sources: Option<S>,
    docker_path: ArgView,
) -> RemoteStateView<S, D> {
    match docker_path.one() {
        Ok(Some(path)) => RemoteStateView::ReadDockerConfig {
            file: ConfigFileView::Given(path),
            sources,
        },
        Ok(None) => RemoteStateView::LocateHome { sources },
        Err(error) => RemoteStateView::Failed { error: RemoteErrorView::Argument(error) },
    }
}

/// The end of a search that a file has stopped.
pub open spec fn stopped<S, D>(cause: Seq<char>) -> RemoteStateView<S, D> {
    RemoteStateView::Failed { error: RemoteErrorView::Outside(cause) }
}

/// The end of the search.
pub open spec fn with_docker_config<S, D>(
    sources: Option<S>,
    docker_config: Option<D>,
) -> RemoteStateView<S, D> {
    RemoteStateView::Done { options: RemoteOptions { sources, docker_config } }
}

impl RemoteArgsView {
    /// The state from which the search starts.
    pub open spec fn start<S, D>(self) -> RemoteStateView<S, D> {
        match self.sources_path.one() {
            Ok(Some(path)) => RemoteStateView::ReadSources {
                file: ConfigFileView::Given(path),
                docker_path: self.docker_config_json_path,
            },
            Ok(None) => RemoteStateView::ProbeSources { docker_path: self.docker_config_json_path },
            Err(error) => RemoteStateView::Failed { error: RemoteErrorView::Argument(error) },
        }
    }
}

impl<S, D> RemoteStateView<S, D> {
    /// What is to be done in this state; nothing at the end.
    pub open spec fn action(self) -> Option<RemoteActionView> {
        match self {
            RemoteStateView::ProbeSources { .. } => Some(RemoteActionView::ProbeSources),
            RemoteStateView::ReadSources { file, .. } => Some(RemoteActionView::ReadSources(file)),
            RemoteStateView::LocateHome { .. } => Some(RemoteActionView::LocateHome),
            RemoteStateView::ProbeDockerConfig { .. } => Some(RemoteActionView::ProbeDockerConfig),
            RemoteStateView::ReadDockerConfig { file, .. } => Some(
                RemoteActionView::ReadDockerConfig(file),
            ),
            RemoteStateView::Done { .. } => None,
            RemoteStateView::Failed { .. } => None,
        }
    }

    /// Whether `event` tells what came of this state's action.
    pub open spec fn awaits(self, event: RemoteEventView<S, D>) -> bool {
        match (self, event) {
            (RemoteStateView::ProbeSources { .. }, RemoteEventView::SourcesProbed(_)) => true,
            (RemoteStateView::ReadSources { .. }, RemoteEventView::SourcesRead(_)) => true,
            (RemoteStateView::LocateHome { .. }, RemoteEventView::HomeLocated(_)) => true,
            (
                RemoteStateView::ProbeDockerConfig { .. },
                RemoteEventView::DockerConfigProbed(_),
            ) => true,
            (
                RemoteStateView::ReadDockerConfig { .. },
                RemoteEventView::DockerConfigRead(_),
            ) => true,
            _ => false,
        }
    }

    /// The state behind `event`.
    pub open spec fn next(self, event: RemoteEventView<S, D>) -> RemoteStateView<S, D>
        recommends
            self.awaits(event),
    {
        match (self, event) {
            (
                RemoteStateView::ProbeSources { docker_path },
                RemoteEventView::SourcesProbed(present),
            ) => if present {
                RemoteStateView::ReadSources { file: ConfigFileView::Default, docker_path }
            } else {
                with_sources(None, docker_path)
            },
            (
                RemoteStateView::ReadSources { docker_path, .. },
                RemoteEventView::SourcesRead(Ok(sources)),
            ) => with_sources(Some(sources), docker_path),
            (
                RemoteStateView::LocateHome { sources },
                RemoteEventView::HomeLocated(found),
            ) => if found {
                RemoteStateView::ProbeDockerConfig { sources }
            } else {
                with_docker_config(sources, None)
            },
            (
                RemoteStateView::ProbeDockerConfig { sources },
                RemoteEventView::DockerConfigProbed(present),
            ) => if present {
                RemoteStateView::ReadDockerConfig { file: ConfigFileView::Default, sources }
            } else {
                with_docker_config(sources, None)
            },
            (
                RemoteStateView::ReadDockerConfig { sources, .. },
                RemoteEventView::DockerConfigRead(Ok(config)),
            ) => with_docker_config(sources, Some(config)),
            (_, RemoteEventView::SourcesRead(Err(cause))) => stopped(cause),
            (_, RemoteEventView::DockerConfigRead(Err(cause))) => stopped(cause),
            _ => self,
        }
    }

    /// How many actions may still come.
    pub open spec fn steps_left(self) -> nat {
        match self {
            RemoteStateView::ProbeSources { .. } => 5,
            RemoteStateView::ReadSources { .. } => 4,
            RemoteStateView::LocateHome { .. } => 3,
            RemoteStateView::ProbeDockerConfig { .. } => 2,
            RemoteStateView::ReadDockerConfig { .. } => 1,
            RemoteStateView::Done { .. } => 0,
            RemoteStateView::Failed { .. } => 0,
        }
    }

    /// The actions that the search asks for in `world`, from here on.
    pub open spec fn actions(self, world: RemoteWorld<S, D>) -> Seq<RemoteActionView>
        decreases self.steps_left(),
    {
        match self.action() {
            Some(action) => seq![action] + self.next(world.answer(action)).actions(world),
            None => Seq::empty(),
        }
    }

    /// What the search comes to in `world`.
    pub open spec fn run(self, world: RemoteWorld<S, D>) -> RemoteStateView<S, D>
        decreases self.steps_left(),
    {
        match self.action() {
            Some(action) => self.next(world.answer(action)).run(world),
            None => self,
        }
    }
}

fn seek_docker_config<S, D>(sources: Option<S>, docker_path: Arg) -> (res: RemoteState<S, D>)
    ensures
        res@ == with_sources::<S, D>(sources, docker_path@),
{
    match docker_path.one() {
        Ok(Some(path)) => RemoteState::ReadDockerConfig { file: ConfigFile::Given(path), sources },
        Ok(None) => RemoteState::LocateHome { sources },
        Err(error) => RemoteState::Failed { error: RemoteError::Argument(error) },
    }
}

/// Starts the search for the options of remote servers.
pub fn remote_server_options<S, D>(args: &RemoteArgs) -> (res: RemoteState<S, D>)
    ensures
        res@ == args@.start::<S, D>(),
{
    let docker_path = args.docker_config_json_path.duplicate();
    match args.sources_path.one() {
        Ok(Some(path)) => RemoteState::ReadSources { file: ConfigFile::Given(path), docker_path },
        Ok(None) => RemoteState::ProbeSources { docker_path },
        Err(error) => RemoteState::Failed { error: RemoteError::Argument(error) },
    }
}

impl<S, D> RemoteState<S, D> {
    /// What is to be done next; nothing at the end.
    pub fn action(&self) -> (res: Option<RemoteAction<'_>>)
        ensures
            res.deep_view() == self@.action(),
    {
        match self {
            RemoteState::ProbeSources { .. } => Some(RemoteAction::ProbeSources),
            RemoteState::ReadSources { file, .. } => Some(RemoteAction::ReadSources(file)),
            RemoteState::LocateHome { .. } => Some(RemoteAction::LocateHome),
            RemoteState::ProbeDockerConfig { .. } => Some(RemoteAction::ProbeDockerConfig),
            RemoteState::ReadDockerConfig { file, .. } => Some(
                RemoteAction::ReadDockerConfig(file),
            ),
            RemoteState::Done { .. } => None,
            RemoteState::Failed { .. } => None,
        }
    }

    /// Tells whether `event` tells what came of this state's action.
    pub fn awaits(&self, event: &RemoteEvent<S, D>) -> (res: bool)
        ensures
            res == self@.awaits(event@),
    {
        match (self, event) {
            (RemoteState::ProbeSources { .. }, RemoteEvent::SourcesProbed(_)) => true,
            (RemoteState::ReadSources { .. }, RemoteEvent::SourcesRead(_)) => true,
            (RemoteState::LocateHome { .. }, RemoteEvent::HomeLocated(_)) => true,
            (RemoteState::ProbeDockerConfig { .. }, RemoteEvent::DockerConfigProbed(_)) => true,
            (RemoteState::ReadDockerConfig { .. }, RemoteEvent::DockerConfigRead(_)) => true,
            _ => false,
        }
    }

    /// Takes in what came of this state's action.
    pub fn advance(self, event: RemoteEvent<S, D>) -> (res: RemoteState<S, D>)
        requires
            self@.awaits(event@),
        ensures
            res@ == self@.next(event@),
    {
        match (self, event) {
            (
                RemoteState::ProbeSources { docker_path },
                RemoteEvent::SourcesProbed(present),
            ) => if present {
                RemoteState::ReadSources { file: ConfigFile::Default, docker_path }
            } else {
                seek_docker_config(None, docker_path)
            },
            (
                RemoteState::ReadSources { docker_path, .. },
                RemoteEvent::SourcesRead(Ok(sources)),
            ) => seek_docker_config(Some(sources), docker_path),
            (RemoteState::LocateHome { sources }, RemoteEvent::HomeLocated(found)) => if found {
                RemoteState::ProbeDockerConfig { sources }
            } else {
                RemoteState::Done { options: RemoteOptions { sources, docker_config: None } }
            },
            (
                RemoteState::ProbeDockerConfig { sources },
                RemoteEvent::DockerConfigProbed(present),
            ) => if present {
                RemoteState::ReadDockerConfig { file: ConfigFile::Default, sources }
            } else {
                RemoteState::Done { options: RemoteOptions { sources, docker_config: None } }
            },
            (
                RemoteState::ReadDockerConfig { sources, .. },
                RemoteEvent::DockerConfigRead(Ok(config)),
            ) => RemoteState::Done {
                options: RemoteOptions { sources, docker_config: Some(config) },
            },
            (_, RemoteEvent::SourcesRead(Err(cause))) => RemoteState::Failed {
                error: RemoteError::Outside(cause),
            },
            (_, RemoteEvent::DockerConfigRead(Err(cause))) => RemoteState::Failed {
                error: RemoteError::Outside(cause),
            },
            (state, _) => state,
        }
    }
}

impl<S, D> RemoteState<S, D> {
    /// What the search has come to, once it is at its end.
    pub open spec fn result(self) -> Option<Result<RemoteOptions<S, D>, RemoteError>> {
        match self {
            RemoteState::Done { options } => Some(Ok(options)),
            RemoteState::Failed { error } => Some(Err(error)),
            _ => None,
        }
    }

    /// What the search has come to, once it is at its end.
    pub fn outcome(self) -> (res: Option<Result<RemoteOptions<S, D>, RemoteError>>)
        ensures
            res == self.result(),
    {
        match self {
            RemoteState::Done { options } => Some(Ok(options)),
            RemoteState::Failed { error } => Some(Err(error)),
            _ => None,
        }
    }
}

/// What the outside answers to the actions of one search.
pub struct RemoteWorld<S, D> {
    pub default_sources_present: bool,
    pub sources_at: spec_fn(ConfigFileView) -> Result<S, Seq<char>>,
    pub home_found: bool,
    pub default_docker_config_present: bool,
    pub docker_config_at: spec_fn(ConfigFileView) -> Result<D, Seq<char>>,
}

/// The contents of the file that `path` names, or else of the default file, where that exists.
pub open spec fn given_or_default<T>(
    path: ArgView,
    default_present: bool,
    contents_of: spec_fn(ConfigFileView) -> Result<T, Seq<char>>,
) -> Result<Option<T>, RemoteErrorView> {
    match path.one() {
        Err(error) => Err(RemoteErrorView::Argument(error)),
        Ok(given) => {
            let file = match given {
                Some(path) => ConfigFileView::Given(path),
                None => ConfigFileView::Default,
            };
            if given is None && !default_present {
                Ok(None)
            } else {
                match contents_of(file) {
                    Ok(contents) => Ok(Some(contents)),
                    Err(cause) => Err(RemoteErrorView::Outside(cause)),
                }
            }
        },
    }
}

impl<S, D> RemoteWorld<S, D> {
    /// What comes of an action.
    pub open spec fn answer(self, action: RemoteActionView) -> RemoteEventView<S, D> {
        match action {
            RemoteActionView::ProbeSources => RemoteEventView::SourcesProbed(
                self.default_sources_present,
            ),
            RemoteActionView::ReadSources(file) => RemoteEventView::SourcesRead(
                (self.sources_at)(file),
            ),
            RemoteActionView::LocateHome => RemoteEventView::HomeLocated(self.home_found),
            RemoteActionView::ProbeDockerConfig => RemoteEventView::DockerConfigProbed(
                self.default_docker_config_present,
            ),
            RemoteActionView::ReadDockerConfig(file) => RemoteEventView::DockerConfigRead(
                (self.docker_config_at)(file),
            ),
        }
    }

    /// The sources that `args` ask for.
    pub open spec fn sources(self, args: RemoteArgsView) -> Result<Option<S>, RemoteErrorView> {
        given_or_default(args.sources_path, self.default_sources_present, self.sources_at)
    }

    /// The Docker configuration that `args` ask for.
    pub open spec fn docker_config(self, args: RemoteArgsView) -> Result<
        Option<D>,
        RemoteErrorView,
    > {
        given_or_default(
            args.docker_config_json_path,
            self.home_found && self.default_docker_config_present,
            self.docker_config_at,
        )
    }

    /// The options that `args` ask for.
    pub open spec fn options(self, args: RemoteArgsView) -> Result<
        RemoteOptions<S, D>,
        RemoteErrorView,
    > {
        match self.sources(args) {
            Err(error) => Err(error),
            Ok(sources) => match self.docker_config(args) {
                Err(error) => Err(error),
                Ok(docker_config) => Ok(RemoteOptions { sources, docker_config }),
            },
        }
    }
}

/// Every answer brings the search closer to its end.
pub proof fn remote_search_ends<S, D>(state: RemoteStateView<S, D>, event: RemoteEventView<S, D>)
    requires
        state.awaits(event),
    ensures
        state.next(event).steps_left() < state.steps_left(),
{
}

/// The search comes to the options that its arguments ask for.
pub proof fn remote_search_finds_options<S, D>(args: RemoteArgsView, world: RemoteWorld<S, D>)
    ensures
        args.start::<S, D>().run(world) == match world.options(args) {
            Ok(options) => RemoteStateView::Done { options },
            Err(error) => RemoteStateView::Failed { error },
        },
{
    reveal_with_fuel(RemoteStateView::run, 6);
}

/// A sources file that cannot be read stops the search, whatever the argument for the Docker
/// configuration says.
pub proof fn sources_come_first<S, D>(
    args: RemoteArgsView,
    docker_path: ArgView,
    world: RemoteWorld<S, D>,
)
    requires
        world.sources(args) is Err,
    ensures
        world.options(args) == world.options(
            RemoteArgsView { docker_config_json_path: docker_path, ..args },
        ),
{
}

/// The two halves of the options do not depend on each other: where both searches find options,
/// the sources are the same if all that concerns sources is, and the Docker configuration is the
/// same if all that concerns it is.
pub proof fn halves_are_independent<S, D>(
    args: RemoteArgsView,
    other_args: RemoteArgsView,
    world: RemoteWorld<S, D>,
    other_world: RemoteWorld<S, D>,
)
    requires
        world.options(args) is Ok,
        other_world.options(other_args) is Ok,
    ensures
        ({
            &&& args.sources_path == other_args.sources_path
            &&& world.default_sources_present == other_world.default_sources_present
            &&& world.sources_at == other_world.sources_at
        }) ==> world.options(args)->Ok_0.sources == other_world.options(other_args)->Ok_0.sources,
        ({
            &&& args.docker_config_json_path == other_args.docker_config_json_path
            &&& world.home_found == other_world.home_found
            &&& world.default_docker_config_present == other_world.default_docker_config_present
            &&& world.docker_config_at == other_world.docker_config_at
        }) ==> world.options(args)->Ok_0.docker_config == other_world.options(
            other_args,
        )->Ok_0.docker_config,
{
}

/// Where both files are named, nothing that stands at a default place has a say.
pub proof fn named_files_are_the_only_ones<S, D>(
    args: RemoteArgsView,
    one: RemoteWorld<S, D>,
    other: RemoteWorld<S, D>,
)
    requires
        args.sources_path.one() matches Ok(Some(_)),
        args.docker_config_json_path.one() matches Ok(Some(_)),
        forall|path: Seq<char>|
            #![trigger (one.sources_at)(ConfigFileView::Given(path))]
            (one.sources_at)(ConfigFileView::Given(path)) == (other.sources_at)(
                ConfigFileView::Given(path),
            ),
        forall|path: Seq<char>|
            #![trigger (one.docker_config_at)(ConfigFileView::Given(path))]
            (one.docker_config_at)(ConfigFileView::Given(path)) == (other.docker_config_at)(
                ConfigFileView::Given(path),
            ),
    ensures
        one.options(args) == other.options(args),
{
    let sources = ConfigFileView::Given(args.sources_path.one()->Ok_0->0);
    let docker = ConfigFileView::Given(args.docker_config_json_path.one()->Ok_0->0);
    assert((one.sources_at)(sources) == (other.sources_at)(sources));
    assert((one.docker_config_at)(docker) == (other.docker_config_at)(docker));
}

/// Whether a file is named by an argument: `path` is its first value.
pub open spec fn names(arg: ArgView, path: Seq<char>) -> bool {
    arg.content matches ContentView::Values(paths) && paths.len() > 0 && paths[0] == path
}

/// Whether no file is named by an argument, which can be read all the same.
pub open spec fn names_none(arg: ArgView) -> bool {
    arg.content is Absent || arg.content == ContentView::Values(Seq::empty())
}

/// Whether `found` is what is to be had: the contents of the file that is named, or else of the
/// default file where that exists, or else nothing.
pub open spec fn finds<T>(
    arg: ArgView,
    default_present: bool,
    contents_of: spec_fn(ConfigFileView) -> Result<T, Seq<char>>,
    found: Option<T>,
) -> bool {
    ||| exists|path: Seq<char>| #[trigger]
        names(arg, path) && found is Some && contents_of(ConfigFileView::Given(path)) == Ok::<
            T,
            Seq<char>,
        >(found->0)
    ||| names_none(arg) && default_present && found is Some && contents_of(ConfigFileView::Default)
        == Ok::<T, Seq<char>>(found->0)
    ||| names_none(arg) && !default_present && found is None
}

/// Whether the file that counts cannot be read, for `cause`.
pub open spec fn misses<T>(
    arg: ArgView,
    default_present: bool,
    contents_of: spec_fn(ConfigFileView) -> Result<T, Seq<char>>,
    cause: Seq<char>,
) -> bool {
    ||| exists|path: Seq<char>| #[trigger]
        names(arg, path) && contents_of(ConfigFileView::Given(path)) == Err::<T, Seq<char>>(cause)
    ||| names_none(arg) && default_present && contents_of(ConfigFileView::Default) == Err::<
        T,
        Seq<char>,
    >(cause)
}

/// The search comes to the sources and the Docker configuration that are to be had: each of the
/// file that its argument names, or else of its default file, where that exists.
pub proof fn remote_options_are_what_the_files_hold<S, D>(
    args: RemoteArgsView,
    world: RemoteWorld<S, D>,
    sources: Option<S>,
    docker_config: Option<D>,
)
    requires
        finds(args.sources_path, world.default_sources_present, world.sources_at, sources),
        finds(
            args.docker_config_json_path,
            world.home_found && world.default_docker_config_present,
            world.docker_config_at,
            docker_config,
        ),
    ensures
        args.start::<S, D>().run(world) == (RemoteStateView::Done {
            options: RemoteOptions { sources, docker_config },
        }),
{
    remote_search_finds_options(args, world);
}

/// A sources file that cannot be read stops the search with its cause, and behind sources that can
/// be had, so does a Docker configuration.
pub proof fn unreadable_remote_file_stops_the_search<S, D>(
    args: RemoteArgsView,
    world: RemoteWorld<S, D>,
    sources: Option<S>,
    cause: Seq<char>,
)
    requires
        misses(args.sources_path, world.default_sources_present, world.sources_at, cause) || (finds(
            args.sources_path,
            world.default_sources_present,
            world.sources_at,
            sources,
        ) && misses(
            args.docker_config_json_path,
            world.home_found && world.default_docker_config_present,
            world.docker_config_at,
            cause,
        )),
    ensures
        args.start::<S, D>().run(world) == (RemoteStateView::<S, D>::Failed {
            error: RemoteErrorView::Outside(cause),
        }),
{
    remote_search_finds_options(args, world);
}

/// Files that are named are read without looking for others.
pub proof fn named_remote_files_are_read<S, D>(
    args: RemoteArgsView,
    world: RemoteWorld<S, D>,
    sources_path: Seq<char>,
    docker_path: Seq<char>,
)
    requires
        names(args.sources_path, sources_path),
        names(args.docker_config_json_path, docker_path),
        (world.sources_at)(ConfigFileView::Given(sources_path)) is Ok,
    ensures
        args.start::<S, D>().actions(world) == seq![
            RemoteActionView::ReadSources(ConfigFileView::Given(sources_path)),
            RemoteActionView::ReadDockerConfig(ConfigFileView::Given(docker_path)),
        ],
{
    reveal_with_fuel(RemoteStateView::actions, 4);
    assert(args.start::<S, D>().actions(world) =~= seq![
        RemoteActionView::ReadSources(ConfigFileView::Given(sources_path)),
        RemoteActionView::ReadDockerConfig(ConfigFileView::Given(docker_path)),
    ]);
}

/// A default file is read only where it exists, and that of Docker only where there is a home.
pub proof fn default_remote_files_are_probed<S, D>(args: RemoteArgsView, world: RemoteWorld<S, D>)
    requires
        names_none(args.sources_path),
        names_none(args.docker_config_json_path),
        world.default_sources_present ==> (world.sources_at)(ConfigFileView::Default) is Ok,
    ensures
        args.start::<S, D>().actions(world) == seq![RemoteActionView::ProbeSources] + (
        if world.default_sources_present {
            seq![RemoteActionView::ReadSources(ConfigFileView::Default)]
        } else {
            Seq::empty()
        }) + seq![RemoteActionView::LocateHome] + (if world.home_found {
            seq![RemoteActionView::ProbeDockerConfig]
        } else {
            Seq::empty()
        }) + (if world.home_found && world.default_docker_config_present {
            seq![RemoteActionView::ReadDockerConfig(ConfigFileView::Default)]
        } else {
            Seq::empty()
        }),
{
    reveal_with_fuel(RemoteStateView::actions, 7);
    assert(args.start::<S, D>().actions(world) =~= seq![RemoteActionView::ProbeSources] + (
    if world.default_sources_present {
        seq![RemoteActionView::ReadSources(ConfigFileView::Default)]
    } else {
        Seq::empty()
    }) + seq![RemoteActionView::LocateHome] + (if world.home_found {
        seq![RemoteActionView::ProbeDockerConfig]
    } else {
        Seq::empty()
    }) + (if world.home_found && world.default_docker_config_present {
        seq![RemoteActionView::ReadDockerConfig(ConfigFileView::Default)]
    } else {
        Seq::empty()
    }));
}

/// The search takes in exactly the answers to what it asks for, and asks for nothing at its end.
pub proof fn remote_search_takes_answers_to_its_action<S, D>(
    state: RemoteStateView<S, D>,
    event: RemoteEventView<S, D>,
)
    ensures
        state.awaits(event) == match state.action() {
            Some(RemoteActionView::ProbeSources) => event is SourcesProbed,
            Some(RemoteActionView::ReadSources(_)) => event is SourcesRead,
            Some(RemoteActionView::LocateHome) => event is HomeLocated,
            Some(RemoteActionView::ProbeDockerConfig) => event is DockerConfigProbed,
            Some(RemoteActionView::ReadDockerConfig(_)) => event is DockerConfigRead,
            None => false,
        },
        state.action() is None == (state is Done || state is Failed),
{
}

/// The outcome of a search is what it ended with, and there is none before its end.
pub proof fn remote_outcome_is_the_end<S, D>(
    state: RemoteState<S, D>,
    options: RemoteOptions<S, D>,
    error: RemoteError,
)
    ensures
        state.result() is Some == (state is Done || state is Failed),
        (RemoteState::Done { options }).result() == Some(
            Ok::<RemoteOptions<S, D>, RemoteError>(options),
        ),
        (RemoteState::<S, D>::Failed { error }).result() == Some(
            Err::<RemoteOptions<S, D>, RemoteError>(error),
        ),
{
}

/// Arguments, states, events, actions and errors show their own parts.
pub proof fn remote_shows_its_parts<S, D>(
    args: RemoteArgs,
    file: ConfigFile,
    docker_path: Arg,
    sources: Option<S>,
    options: RemoteOptions<S, D>,
    contents: S,
    config: D,
    cause: String,
    error: RemoteError,
    arg_error: ArgError,
    present: bool,
)
    ensures
        args@.sources_path == args.sources_path@,
        args@.docker_config_json_path == args.docker_config_json_path@,
        RemoteError::Outside(cause)@ == RemoteErrorView::Outside(cause@),
        RemoteError::Argument(arg_error)@ == RemoteErrorView::Argument(arg_error@),
        (RemoteState::<S, D>::ProbeSources { docker_path })@ == (RemoteStateView::<
            S,
            D,
        >::ProbeSources { docker_path: docker_path@ }),
        (RemoteState::<S, D>::ReadSources { file, docker_path })@ == (RemoteStateView::<
            S,
            D,
        >::ReadSources { file: file@, docker_path: docker_path@ }),
        (RemoteState::<S, D>::LocateHome { sources })@ == (RemoteStateView::<S, D>::LocateHome {
            sources,
        }),
        (RemoteState::<S, D>::ProbeDockerConfig { sources })@ == (RemoteStateView::<
            S,
            D,
        >::ProbeDockerConfig { sources }),
        (RemoteState::<S, D>::ReadDockerConfig { file, sources })@ == (RemoteStateView::<
            S,
            D,
        >::ReadDockerConfig { file: file@, sources }),
        (RemoteState::Done { options })@ == (RemoteStateView::Done { options }),
        (RemoteState::<S, D>::Failed { error })@ == (RemoteStateView::<S, D>::Failed {
            error: error@,
        }),
        RemoteAction::ProbeSources.deep_view() == RemoteActionView::ProbeSources,
        RemoteAction::ReadSources(&file).deep_view() == RemoteActionView::ReadSources(file@),
        RemoteAction::LocateHome.deep_view() == RemoteActionView::LocateHome,
        RemoteAction::ProbeDockerConfig.deep_view() == RemoteActionView::ProbeDockerConfig,
        RemoteAction::ReadDockerConfig(&file).deep_view() == RemoteActionView::ReadDockerConfig(
            file@,
        ),
        RemoteEvent::<S, D>::SourcesProbed(present)@ == RemoteEventView::<S, D>::SourcesProbed(
            present,
        ),
        RemoteEvent::<S, D>::SourcesRead(Ok(contents))@ == RemoteEventView::<S, D>::SourcesRead(
            Ok(contents),
        ),
        RemoteEvent::<S, D>::SourcesRead(Err(cause))@ == RemoteEventView::<S, D>::SourcesRead(
            Err(cause@),
        ),
        RemoteEvent::<S, D>::HomeLocated(present)@ == RemoteEventView::<S, D>::HomeLocated(present),
        RemoteEvent::<S, D>::DockerConfigProbed(present)@ == RemoteEventView::<
            S,
            D,
        >::DockerConfigProbed(present),
        RemoteEvent::<S, D>::DockerConfigRead(Ok(config))@ == RemoteEventView::<
            S,
            D,
        >::DockerConfigRead(Ok(config)),
        RemoteEvent::<S, D>::DockerConfigRead(Err(cause))@ == RemoteEventView::<
            S,
            D,
        >::DockerConfigRead(Err(cause@)),
{
}

/// An argument on remote servers that cannot be read never passes for one that is not there: the
/// search fails with it, once it is needed.
pub proof fn unreadable_remote_argument_is_no_absent_one<S, D>(
    args: RemoteArgsView,
    world: RemoteWorld<S, D>,
    sources: Option<S>,
)
    ensures
        args.sources_path.content is Unknown || args.sources_path.content is Foreign
            ==> args.start::<S, D>() == (RemoteStateView::<S, D>::Failed {
            error: RemoteErrorView::Argument(ArgErrorView::Unreadable(args.sources_path.id)),
        }),
        finds(args.sources_path, world.default_sources_present, world.sources_at, sources) && (
        args.docker_config_json_path.content is Unknown
            || args.docker_config_json_path.content is Foreign) ==> args.start::<S, D>().run(world)
            == (RemoteStateView::<S, D>::Failed {
            error: RemoteErrorView::Argument(
                ArgErrorView::Unreadable(args.docker_config_json_path.id),
            ),
        }),
{
    remote_search_finds_options(args, world);
}

} // verus!
