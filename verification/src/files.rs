//! Configuration files that the user names or that stand at a default place.

use vstd::prelude::*;

verus! {

/// The default verification configuration, inside the configuration directory.
pub const KWCTL_VERIFICATION_CONFIG: &'static str = "verification-config.yml";

/// The default sources file, inside the configuration directory.
pub const DEFAULT_SOURCES: &'static str = "sources.yaml";

/// The directory for the TUF repository, inside the configuration directory.
pub const FULCIO_AND_REKOR_DATA: &'static str = "fulcio_and_rekor_data";

/// The directory of the default Docker configuration, inside the home directory.
pub const DOCKER_DIRECTORY: &'static str = ".docker";

/// The default Docker configuration, inside its directory.
pub const DOCKER_CONFIG: &'static str = "config.json";

/// A configuration file.
pub enum ConfigFile {
    /// The file that the user names.
    Given(String),
    /// The file at its default place.
    Default,
}

pub enum ConfigFileView {
    Given(Seq<char>),
    Default,
}

impl View for ConfigFile {
    type V = ConfigFileView;

    open spec fn view(&self) -> ConfigFileView {
        match *self {
            ConfigFile::Given(path) => ConfigFileView::Given(path@),
            ConfigFile::Default => ConfigFileView::Default,
        }
    }
}

/// Files that are to be read, one after the other.
pub struct PathQueue {
    paths: Vec<String>,
    read: usize,
}

impl View for PathQueue {
    type V = Seq<Seq<char>>;

    closed spec fn view(&self) -> Seq<Seq<char>> {
        self.paths.deep_view().skip(self.read as int)
    }
}

impl PathQueue {
    #[verifier::type_invariant]
    spec fn well_formed(self) -> bool {
        self.read <= self.paths@.len()
    }

    /// The queue of all of `paths`.
    pub fn new(paths: Vec<String>) -> (res: PathQueue)
        ensures
            res@ == paths.deep_view(),
    {
        let res = PathQueue { paths, read: 0 };
        assert(res@ =~= paths.deep_view());
        res
    }

    /// The file to read next.
    pub fn next(&self) -> (res: Option<&String>)
        ensures
            match res {
                Some(path) => self@.len() > 0 && path@ == self@.first(),
                None => self@.len() == 0,
            },
    {
        proof {
            use_type_invariant(self);
        }
        if self.read < self.paths.len() {
            Some(&self.paths[self.read])
        } else {
            None
        }
    }

    /// The queue behind its first file.
    pub fn tail(self) -> (res: PathQueue)
        requires
            self@.len() > 0,
        ensures
            res@ == self@.drop_first(),
    {
        proof {
            use_type_invariant(&self);
            assert(self.read < self.paths.len());
        }
        let ghost before = self@;
        let PathQueue { paths, read } = self;
        let res = PathQueue { paths, read: read + 1 };
        assert(res@ =~= before.drop_first());
        res
    }
}

/// The default files stand where other tools of the family look for them.
pub proof fn default_places_are_fixed()
    ensures
        KWCTL_VERIFICATION_CONFIG@ == "verification-config.yml"@,
        DEFAULT_SOURCES@ == "sources.yaml"@,
        FULCIO_AND_REKOR_DATA@ == "fulcio_and_rekor_data"@,
        DOCKER_DIRECTORY@ == ".docker"@,
        DOCKER_CONFIG@ == "config.json"@,
{
}

/// A file shows whether the user names it, and under which path.
pub proof fn files_show_their_paths(path: String)
    ensures
        ConfigFile::Given(path)@ == ConfigFileView::Given(path@),
        ConfigFile::Default@ == ConfigFileView::Default,
{
}

} // verus!
