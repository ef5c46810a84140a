//! The Fulcio and Rekor data that signatures are checked against.

use crate::arg::{Arg, ArgError, ArgErrorView, ArgView, ContentView};
use crate::files::PathQueue;
use vstd::prelude::*;

verus! {

/// What the command line says on Fulcio and Rekor.
pub struct FulcioArgs {
    pub fulcio_cert_path: Arg,
    pub rekor_public_key_path: Arg,
}

pub struct FulcioArgsView {
    pub fulcio_cert_path: ArgView,
    pub rekor_public_key_path: ArgView,
}

impl View for FulcioArgs {
    type V = FulcioArgsView;

    open spec fn view(&self) -> FulcioArgsView {
        FulcioArgsView {
            fulcio_cert_path: self.fulcio_cert_path@,
            rekor_public_key_path: self.rekor_public_key_path@,
        }
    }
}

impl FulcioArgsView {
    /// Whether the command line names data of its own. The argument for the public key has a say
    /// only where that for the certificates is not there.
    pub open spec fn custom(self) -> Result<bool, ArgErrorView> {
        match self.fulcio_cert_path.contains() {
            Ok(false) => self.rekor_public_key_path.contains(),
            answer => answer,
        }
    }

    /// The certificate files, in the order in which they are read.
    pub open spec fn cert_paths(self) -> Result<Seq<Seq<char>>, ArgErrorView> {
        match self.fulcio_cert_path.many() {
            Ok(Some(paths)) => Ok(paths),
            Ok(None) => Ok(Seq::empty()),
            Err(error) => Err(error),
        }
    }
}

/// A certificate as it was read.
pub enum Certificate {
    Pem(Vec<u8>),
}

pub enum CertificateView {
    Pem(Seq<u8>),
}

impl DeepView for Certificate {
    type V = CertificateView;

    open spec fn deep_view(&self) -> CertificateView {
        match *self {
            Certificate::Pem(data) => CertificateView::Pem(data@),
        }
    }
}

/// What signatures are checked against. `R` is a TUF repository.
pub enum FulcioAndRekorData<R> {
    FromCustomData { fulcio_certs: Vec<Certificate>, rekor_public_key: Option<String> },
    FromTufRepository { repo: R },
}

#[verifier::ext_equal]
pub enum FulcioAndRekorDataView<R> {
    FromCustomData { fulcio_certs: Seq<CertificateView>, rekor_public_key: Option<Seq<char>> },
    FromTufRepository { repo: R },
}

impl<R> View for FulcioAndRekorData<R> {
    type V = FulcioAndRekorDataView<R>;

    open spec fn view(&self) -> FulcioAndRekorDataView<R> {
        match *self {
            FulcioAndRekorData::FromCustomData {
                fulcio_certs,
                rekor_public_key,
            } => FulcioAndRekorDataView::FromCustomData {
                fulcio_certs: fulcio_certs.deep_view(),
                rekor_public_key: rekor_public_key.deep_view(),
            },
            FulcioAndRekorData::FromTufRepository {
                repo,
            } => FulcioAndRekorDataView::FromTufRepository { repo },
        }
    }
}

impl<R> DeepView for FulcioAndRekorData<R> {
    type V = FulcioAndRekorDataView<R>;

    open spec fn deep_view(&self) -> FulcioAndRekorDataView<R> {
        self@
    }
}

/// Why there is no data.
pub enum FulcioError {
    /// A file or a directory could not be worked with, or the fetch was cut off.
    Outside(String),
    /// One of certificate and public key is missing.
    Incomplete,
    /// An argument gives no answer.
    Argument(ArgError),
}

pub enum FulcioErrorView {
    Outside(Seq<char>),
    Incomplete,
    Argument(ArgErrorView),
}

impl View for FulcioError {
    type V = FulcioErrorView;

    open spec fn view(&self) -> FulcioErrorView {
        match *self {
            FulcioError::Outside(cause) => FulcioErrorView::Outside(cause@),
            FulcioError::Incomplete => FulcioErrorView::Incomplete,
            FulcioError::Argument(error) => FulcioErrorView::Argument(error@),
        }
    }
}

/// What came of a fetch of the TUF repository.
pub enum Fetch<R> {
    Fetched(R),
    /// The repository could not be had.
    Unavailable(String),
    /// The fetch did not run to its end.
    CutOff(String),
}

pub enum FetchView<R> {
    Fetched(R),
    Unavailable(Seq<char>),
    CutOff(Seq<char>),
}

impl<R> View for Fetch<R> {
    type V = FetchView<R>;

    open spec fn view(&self) -> FetchView<R> {
        match *self {
            Fetch::Fetched(repo) => FetchView::Fetched(repo),
            Fetch::Unavailable(cause) => FetchView::Unavailable(cause@),
            Fetch::CutOff(cause) => FetchView::CutOff(cause@),
        }
    }
}

/// How far the search for the data is.
pub enum FulcioState<R> {
    /// The next certificate file is to be read.
    ReadCert { certs: Vec<Certificate>, unread: PathQueue, rekor_path: Arg },
    /// The Rekor public key is to be read.
    ReadRekorKey { certs: Vec<Certificate>, path: String },
    /// It is to be found out whether the directory for the repository exists.
    ProbeCheckout,
    /// That directory is to be made.
    CreateCheckout,
    /// The repository is to be fetched.
    FetchRepository,
    Done { data: Option<FulcioAndRekorData<R>> },
    Failed { error: FulcioError },
}

#[verifier::ext_equal]
pub enum FulcioStateView<R> {
    ReadCert {
        certs: Seq<CertificateView>,
        unread: Seq<Seq<char>>,
        rekor_path: ArgView,
    },
    ReadRekorKey { certs: Seq<CertificateView>, path: Seq<char> },
    ProbeCheckout,
    CreateCheckout,
    FetchRepository,
    Done { data: Option<FulcioAndRekorDataView<R>> },
    Failed { error: FulcioErrorView },
}

impl<R> View for FulcioState<R> {
    type V = FulcioStateView<R>;

    open spec fn view(&self) -> FulcioStateView<R> {
        match *self {
            FulcioState::ReadCert { certs, unread, rekor_path } => FulcioStateView::ReadCert {
                certs: certs.deep_view(),
                unread: unread@,
                rekor_path: rekor_path@,
            },
            FulcioState::ReadRekorKey { certs, path } => FulcioStateView::ReadRekorKey {
                certs: certs.deep_view(),
                path: path@,
            },
            FulcioState::ProbeCheckout => FulcioStateView::ProbeCheckout,
            FulcioState::CreateCheckout => FulcioStateView::CreateCheckout,
            FulcioState::FetchRepository => FulcioStateView::FetchRepository,
            FulcioState::Done { data } => FulcioStateView::Done { data: data.deep_view() },
            FulcioState::Failed { error } => FulcioStateView::Failed { error: error@ },
        }
    }
}

/// What is to be done next.
pub enum FulcioAction<'a> {
    ReadCert(&'a String),
    ReadRekorKey(&'a String),
    ProbeCheckout,
    CreateCheckout,
    FetchRepository,
}

pub enum FulcioActionView {
    ReadCert(Seq<char>),
    ReadRekorKey(Seq<char>),
    ProbeCheckout,
    CreateCheckout,
    FetchRepository,
}

impl<'a> DeepView for FulcioAction<'a> {
    type V = FulcioActionView;

    open spec fn deep_view(&self) -> FulcioActionView {
        match *self {
            FulcioAction::ReadCert(path) => FulcioActionView::ReadCert(path@),
            FulcioAction::ReadRekorKey(path) => FulcioActionView::ReadRekorKey(path@),
            FulcioAction::ProbeCheckout => FulcioActionView::ProbeCheckout,
            FulcioAction::CreateCheckout => FulcioActionView::CreateCheckout,
            FulcioAction::FetchRepository => FulcioActionView::FetchRepository,
        }
    }
}

/// What came of an action. An error is the text of its cause.
pub enum FulcioEvent<R> {
    CertRead(Result<Vec<u8>, String>),
    RekorKeyRead(Result<String, String>),
    CheckoutProbed(bool),
    CheckoutCreated(Result<(), String>),
    RepositoryFetched(Fetch<R>),
}

pub enum FulcioEventView<R> {
    CertRead(Result<Seq<u8>, Seq<char>>),
    RekorKeyRead(Result<Seq<char>, Seq<char>>),
    CheckoutProbed(bool),
    CheckoutCreated(Result<(), Seq<char>>),
    RepositoryFetched(FetchView<R>),
}

impl<R> View for FulcioEvent<R> {
    type V = FulcioEventView<R>;

    open spec fn view(&self) -> FulcioEventView<R> {
        match *self {
            FulcioEvent::CertRead(Ok(data)) => FulcioEventView::CertRead(Ok(data@)),
            FulcioEvent::CertRead(Err(cause)) => FulcioEventView::CertRead(Err(cause@)),
            FulcioEvent::RekorKeyRead(Ok(key)) => FulcioEventView::RekorKeyRead(Ok(key@)),
            FulcioEvent::RekorKeyRead(Err(cause)) => FulcioEventView::RekorKeyRead(Err(cause@)),
            FulcioEvent::CheckoutProbed(present) => FulcioEventView::CheckoutProbed(present),
            FulcioEvent::CheckoutCreated(Ok(())) => FulcioEventView::CheckoutCreated(Ok(())),
            FulcioEvent::CheckoutCreated(Err(cause)) => FulcioEventView::CheckoutCreated(
                Err(cause@),
            ),
            FulcioEvent::RepositoryFetched(fetch) => FulcioEventView::RepositoryFetched(fetch@),
        }
    }
}

/// The end of the search, where the command line names data of its own.
pub open spec fn custom_data<R>(
    certs: Seq<CertificateView>,
    rekor_key: Option<Seq<char>>,
) -> FulcioStateView<R> {
    if certs.len() == 0 || rekor_key is None {
        FulcioStateView::Failed { error: FulcioErrorView::Incomplete }
    } else {
        FulcioStateView::Done {
            data: Some(
                FulcioAndRekorDataView::FromCustomData {
                    fulcio_certs: certs,
                    rekor_public_key: rekor_key,
                },
            ),
        }
    }
}

/// The end of a search that an argument has stopped.
pub open spec fn no_answer<R>(error: ArgErrorView) -> FulcioStateView<R> {
    FulcioStateView::Failed { error: FulcioErrorView::Argument(error) }
}

/// The state in which `certs` were read and `unread` certificate files are left. Only behind the
/// last of them it counts what the argument for the public key says.
pub open spec fn with_certs<R>(
    certs: Seq<CertificateView>,
    unread: Seq<Seq<char>>,
    rekor_path: ArgView,
) -> FulcioStateView<R> {
    if unread.len() > 0 {
        FulcioStateView::ReadCert { certs, unread, rekor_path }
    } else {
        match rekor_path.one() {
            Ok(Some(path)) => FulcioStateView::ReadRekorKey { certs, path },
            Ok(None) => custom_data(certs, None),
            Err(error) => no_answer(error),
        }
    }
}

impl FulcioArgsView {
    /// The state from which the search starts.
    pub open spec fn start<R>(self) -> FulcioStateView<R> {
        match self.custom() {
            Err(error) => no_answer(error),
            Ok(true) => match self.cert_paths() {
                Err(error) => no_answer(error),
                Ok(paths) => with_certs(Seq::empty(), paths, self.rekor_public_key_path),
            },
            Ok(false) => FulcioStateView::ProbeCheckout,
        }
    }
}

impl<R> FulcioStateView<R> {
    /// What is to be done in this state; nothing at the end.
    pub open spec fn action(self) -> Option<FulcioActionView> {
        match self {
            FulcioStateView::ReadCert { unread, .. } => if unread.len() > 0 {
                Some(FulcioActionView::ReadCert(unread.first()))
            } else {
                None
            },
            FulcioStateView::ReadRekorKey { path, .. } => Some(
                FulcioActionView::ReadRekorKey(path),
            ),
            FulcioStateView::ProbeCheckout => Some(FulcioActionView::ProbeCheckout),
            FulcioStateView::CreateCheckout => Some(FulcioActionView::CreateCheckout),
            FulcioStateView::FetchRepository => Some(FulcioActionView::FetchRepository),
            FulcioStateView::Done { .. } => None,
            FulcioStateView::Failed { .. } => None,
        }
    }

    /// Whether `event` tells what came of this state's action.
    pub open spec fn awaits(self, event: FulcioEventView<R>) -> bool {
        match (self, event) {
            (FulcioStateView::ReadCert { unread, .. }, FulcioEventView::CertRead(_)) => unread.len()
                > 0,
            (FulcioStateView::ReadRekorKey { .. }, FulcioEventView::RekorKeyRead(_)) => true,
            (FulcioStateView::ProbeCheckout, FulcioEventView::CheckoutProbed(_)) => true,
            (FulcioStateView::CreateCheckout, FulcioEventView::CheckoutCreated(_)) => true,
            (FulcioStateView::FetchRepository, FulcioEventView::RepositoryFetched(_)) => true,
            _ => false,
        }
    }

    /// The state behind `event`.
    pub open spec fn next(self, event: FulcioEventView<R>) -> FulcioStateView<R>
        recommends
            self.awaits(event),
    {
        match (self, event) {
            (
                FulcioStateView::ReadCert { certs, unread, rekor_path },
                FulcioEventView::CertRead(Ok(data)),
            ) => with_certs(
                certs.push(CertificateView::Pem(data)),
                unread.drop_first(),
                rekor_path,
            ),
            (
                FulcioStateView::ReadRekorKey { certs, .. },
                FulcioEventView::RekorKeyRead(Ok(key)),
            ) => custom_data(certs, Some(key)),
            (
                FulcioStateView::ProbeCheckout,
                FulcioEventView::CheckoutProbed(present),
            ) => if present {
                FulcioStateView::FetchRepository
            } else {
                FulcioStateView::CreateCheckout
            },
            (
                FulcioStateView::CreateCheckout,
                FulcioEventView::CheckoutCreated(Ok(())),
            ) => FulcioStateView::FetchRepository,
            (
                FulcioStateView::FetchRepository,
                FulcioEventView::RepositoryFetched(FetchView::Fetched(repo)),
            ) => FulcioStateView::Done {
                data: Some(FulcioAndRekorDataView::FromTufRepository { repo }),
            },
            (
                FulcioStateView::FetchRepository,
                FulcioEventView::RepositoryFetched(FetchView::Unavailable(_)),
            ) => FulcioStateView::Done { data: None },
            (_, FulcioEventView::CertRead(Err(cause))) => failed(cause),
            (_, FulcioEventView::RekorKeyRead(Err(cause))) => failed(cause),
            (_, FulcioEventView::CheckoutCreated(Err(cause))) => failed(cause),
            (_, FulcioEventView::RepositoryFetched(FetchView::CutOff(cause))) => failed(cause),
            _ => self,
        }
    }

    /// How many actions may still come.
    pub open spec fn steps_left(self) -> nat {
        match self {
            FulcioStateView::ReadCert { unread, .. } => unread.len() + 1,
            FulcioStateView::ReadRekorKey { .. } => 1,
            FulcioStateView::ProbeCheckout => 3,
            FulcioStateView::CreateCheckout => 2,
            FulcioStateView::FetchRepository => 1,
            FulcioStateView::Done { .. } => 0,
            FulcioStateView::Failed { .. } => 0,
        }
    }

    /// What the search comes to in `world`.
    pub open spec fn run(self, world: FulcioWorld<R>) -> FulcioStateView<R>
        decreases self.steps_left(),
    {
        match self.action() {
            Some(action) => self.next(world.answer(action)).run(world),
            None => self,
        }
    }
}

impl<R> FulcioStateView<R> {
    /// The actions that the search asks for in `world`, from here on.
    pub open spec fn actions(self, world: FulcioWorld<R>) -> Seq<FulcioActionView>
        decreases self.steps_left(),
    {
        match self.action() {
            Some(action) => seq![action] + self.next(world.answer(action)).actions(world),
            None => Seq::empty(),
        }
    }
}

/// The end of a search that something outside has stopped.
pub open spec fn failed<R>(cause: Seq<char>) -> FulcioStateView<R> {
    FulcioStateView::Failed { error: FulcioErrorView::Outside(cause) }
}

fn finish_custom<R>(certs: Vec<Certificate>, rekor_key: Option<String>) -> (res: FulcioState<R>)
    ensures
        res@ == custom_data::<R>(certs.deep_view(), rekor_key.deep_view()),
{
    if certs.len() == 0 || rekor_key.is_none() {
        FulcioState::Failed { error: FulcioError::Incomplete }
    } else {
        FulcioState::Done {
            data: Some(
                FulcioAndRekorData::FromCustomData {
                    fulcio_certs: certs,
                    rekor_public_key: rekor_key,
                },
            ),
        }
    }
}

fn proceed<R>(
    certs: Vec<Certificate>,
    unread: PathQueue,
    rekor_path: Arg,
) -> (res: FulcioState<R>)
    ensures
        res@ == with_certs::<R>(certs.deep_view(), unread@, rekor_path@),
{
    if unread.next().is_some() {
        FulcioState::ReadCert { certs, unread, rekor_path }
    } else {
        match rekor_path.one() {
            Ok(Some(path)) => FulcioState::ReadRekorKey { certs, path },
            Ok(None) => finish_custom(certs, None),
            Err(error) => FulcioState::Failed { error: FulcioError::Argument(error) },
        }
    }
}

/// Starts the search for Fulcio and Rekor data.
pub fn build_fulcio_and_rekor_data<R>(args: &FulcioArgs) -> (res: FulcioState<R>)
    ensures
        res@ == args@.start::<R>(),
{
    let custom = match args.fulcio_cert_path.contains() {
        Ok(false) => args.rekor_public_key_path.contains(),
        answer => answer,
    };
    match custom {
        Err(error) => FulcioState::Failed { error: FulcioError::Argument(error) },
        Ok(false) => FulcioState::ProbeCheckout,
        Ok(true) => match args.fulcio_cert_path.many() {
            Err(error) => FulcioState::Failed { error: FulcioError::Argument(error) },
            Ok(given) => {
                let paths = match given {
                    Some(paths) => paths,
                    None => Vec::new(),
                };
                let certs: Vec<Certificate> = Vec::new();
                proof {
                    assert(paths.deep_view() =~= args@.cert_paths()->Ok_0);
                    assert(certs.deep_view() =~= Seq::<CertificateView>::empty());
                }
                proceed(certs, PathQueue::new(paths), args.rekor_public_key_path.duplicate())
            },
        },
    }
}

fn fail<R>(cause: String) -> (res: FulcioState<R>)
    ensures
        res@ == failed::<R>(cause@),
{
    FulcioState::Failed { error: FulcioError::Outside(cause) }
}

impl<R> FulcioState<R> {
    /// What is to be done next; nothing at the end.
    pub fn action(&self) -> (res: Option<FulcioAction<'_>>)
        ensures
            res.deep_view() == self@.action(),
    {
        match self {
            FulcioState::ReadCert { unread, .. } => match unread.next() {
                Some(path) => Some(FulcioAction::ReadCert(path)),
                None => None,
            },
            FulcioState::ReadRekorKey { path, .. } => Some(FulcioAction::ReadRekorKey(path)),
            FulcioState::ProbeCheckout => Some(FulcioAction::ProbeCheckout),
            FulcioState::CreateCheckout => Some(FulcioAction::CreateCheckout),
            FulcioState::FetchRepository => Some(FulcioAction::FetchRepository),
            FulcioState::Done { .. } => None,
            FulcioState::Failed { .. } => None,
        }
    }

    /// Tells whether `event` tells what came of this state's action.
    pub fn awaits(&self, event: &FulcioEvent<R>) -> (res: bool)
        ensures
            res == self@.awaits(event@),
    {
        match (self, event) {
            (
                FulcioState::ReadCert { unread, .. },
                FulcioEvent::CertRead(_),
            ) => unread.next().is_some(),
            (FulcioState::ReadRekorKey { .. }, FulcioEvent::RekorKeyRead(_)) => true,
            (FulcioState::ProbeCheckout, FulcioEvent::CheckoutProbed(_)) => true,
            (FulcioState::CreateCheckout, FulcioEvent::CheckoutCreated(_)) => true,
            (FulcioState::FetchRepository, FulcioEvent::RepositoryFetched(_)) => true,
            _ => false,
        }
    }

    /// Takes in what came of this state's action.
    pub fn advance(self, event: FulcioEvent<R>) -> (res: FulcioState<R>)
        requires
            self@.awaits(event@),
        ensures
            res@ == self@.next(event@),
    {
        match (self, event) {
            (
                FulcioState::ReadCert { mut certs, unread, rekor_path },
                FulcioEvent::CertRead(Ok(data)),
            ) => {
                let ghost before = certs.deep_view();
                let ghost bytes = data@;
                certs.push(Certificate::Pem(data));
                assert(certs.deep_view() =~= before.push(CertificateView::Pem(bytes)));
                proceed(certs, unread.tail(), rekor_path)
            },
            (
                FulcioState::ReadRekorKey { certs, .. },
                FulcioEvent::RekorKeyRead(Ok(key)),
            ) => finish_custom(certs, Some(key)),
            (FulcioState::ProbeCheckout, FulcioEvent::CheckoutProbed(present)) => if present {
                FulcioState::FetchRepository
            } else {
                FulcioState::CreateCheckout
            },
            (
                FulcioState::CreateCheckout,
                FulcioEvent::CheckoutCreated(Ok(())),
            ) => FulcioState::FetchRepository,
            (
                FulcioState::FetchRepository,
                FulcioEvent::RepositoryFetched(Fetch::Fetched(repo)),
            ) => FulcioState::Done { data: Some(FulcioAndRekorData::FromTufRepository { repo }) },
            (
                FulcioState::FetchRepository,
                FulcioEvent::RepositoryFetched(Fetch::Unavailable(_)),
            ) => FulcioState::Done { data: None },
            (_, FulcioEvent::CertRead(Err(cause))) => fail(cause),
            (_, FulcioEvent::RekorKeyRead(Err(cause))) => fail(cause),
            (_, FulcioEvent::CheckoutCreated(Err(cause))) => fail(cause),
            (_, FulcioEvent::RepositoryFetched(Fetch::CutOff(cause))) => fail(cause),
            (state, _) => state,
        }
    }
}

impl<R> FulcioState<R> {
    /// What the search has come to, once it is at its end.
    pub open spec fn result(self) -> Option<Result<Option<FulcioAndRekorData<R>>, FulcioError>> {
        match self {
            FulcioState::Done { data } => Some(Ok(data)),
            FulcioState::Failed { error } => Some(Err(error)),
            _ => None,
        }
    }

    /// What the search has come to, once it is at its end.
    pub fn outcome(self) -> (res: Option<Result<Option<FulcioAndRekorData<R>>, FulcioError>>)
        ensures
            res == self.result(),
    {
        match self {
            FulcioState::Done { data } => Some(Ok(data)),
            FulcioState::Failed { error } => Some(Err(error)),
            _ => None,
        }
    }
}

/// What the outside answers to the actions of one search.
pub struct FulcioWorld<R> {
    pub cert_at: spec_fn(Seq<char>) -> Result<Seq<u8>, Seq<char>>,
    pub rekor_key_at: spec_fn(Seq<char>) -> Result<Seq<char>, Seq<char>>,
    pub checkout_present: bool,
    pub checkout_created: Result<(), Seq<char>>,
    pub repository: FetchView<R>,
}

/// The certificates that the files at `paths` hold, or why the first of them that cannot be read
/// cannot.
pub open spec fn read_certs(
    paths: Seq<Seq<char>>,
    cert_at: spec_fn(Seq<char>) -> Result<Seq<u8>, Seq<char>>,
) -> Result<Seq<CertificateView>, Seq<char>>
    decreases paths.len(),
{
    if paths.len() == 0 {
        Ok(Seq::empty())
    } else {
        match cert_at(paths.first()) {
            Err(cause) => Err(cause),
            Ok(data) => match read_certs(paths.drop_first(), cert_at) {
                Err(cause) => Err(cause),
                Ok(certs) => Ok(seq![CertificateView::Pem(data)] + certs),
            },
        }
    }
}

impl<R> FulcioWorld<R> {
    /// What comes of an action.
    pub open spec fn answer(self, action: FulcioActionView) -> FulcioEventView<R> {
        match action {
            FulcioActionView::ReadCert(path) => FulcioEventView::CertRead((self.cert_at)(path)),
            FulcioActionView::ReadRekorKey(path) => FulcioEventView::RekorKeyRead(
                (self.rekor_key_at)(path),
            ),
            FulcioActionView::ProbeCheckout => FulcioEventView::CheckoutProbed(
                self.checkout_present,
            ),
            FulcioActionView::CreateCheckout => FulcioEventView::CheckoutCreated(
                self.checkout_created,
            ),
            FulcioActionView::FetchRepository => FulcioEventView::RepositoryFetched(
                self.repository,
            ),
        }
    }

    /// The data that the command line names.
    pub open spec fn custom(self, args: FulcioArgsView) -> Result<
        Option<FulcioAndRekorDataView<R>>,
        FulcioErrorView,
    > {
        match args.cert_paths() {
            Err(error) => Err(FulcioErrorView::Argument(error)),
            Ok(paths) => match read_certs(paths, self.cert_at) {
                Err(cause) => Err(FulcioErrorView::Outside(cause)),
                Ok(certs) => match args.rekor_public_key_path.one() {
                    Err(error) => Err(FulcioErrorView::Argument(error)),
                    Ok(None) => Err(FulcioErrorView::Incomplete),
                    Ok(Some(path)) => match (self.rekor_key_at)(path) {
                        Err(cause) => Err(FulcioErrorView::Outside(cause)),
                        Ok(key) => if certs.len() == 0 {
                            Err(FulcioErrorView::Incomplete)
                        } else {
                            Ok(
                                Some(
                                    FulcioAndRekorDataView::FromCustomData {
                                        fulcio_certs: certs,
                                        rekor_public_key: Some(key),
                                    },
                                ),
                            )
                        },
                    },
                },
            },
        }
    }

    /// The data of the TUF repository, where it can be had.
    pub open spec fn fetched(self) -> Result<Option<FulcioAndRekorDataView<R>>, FulcioErrorView> {
        match (self.checkout_present, self.checkout_created) {
            (false, Err(cause)) => Err(FulcioErrorView::Outside(cause)),
            _ => match self.repository {
                FetchView::Fetched(repo) => Ok(
                    Some(FulcioAndRekorDataView::FromTufRepository { repo }),
                ),
                FetchView::Unavailable(_) => Ok(None),
                FetchView::CutOff(cause) => Err(FulcioErrorView::Outside(cause)),
            },
        }
    }

    /// The data that `args` ask for.
    pub open spec fn data(self, args: FulcioArgsView) -> Result<
        Option<FulcioAndRekorDataView<R>>,
        FulcioErrorView,
    > {
        match args.custom() {
            Err(error) => Err(FulcioErrorView::Argument(error)),
            Ok(true) => self.custom(args),
            Ok(false) => self.fetched(),
        }
    }
}

/// Every answer brings the search closer to its end.
pub proof fn fulcio_search_ends<R>(state: FulcioStateView<R>, event: FulcioEventView<R>)
    requires
        state.awaits(event),
    ensures
        state.next(event).steps_left() < state.steps_left(),
{
}

proof fn lemma_run_certs<R>(
    world: FulcioWorld<R>,
    certs: Seq<CertificateView>,
    unread: Seq<Seq<char>>,
    rekor_path: ArgView,
)
    ensures
        with_certs::<R>(certs, unread, rekor_path).run(world) == match read_certs(
            unread,
            world.cert_at,
        ) {
            Err(cause) => failed(cause),
            Ok(more) => with_certs::<R>(certs + more, Seq::empty(), rekor_path).run(world),
        },
    decreases unread.len(),
{
    if unread.len() == 0 {
        assert(certs + Seq::<CertificateView>::empty() =~= certs);
        assert(unread =~= Seq::empty());
    } else {
        match (world.cert_at)(unread.first()) {
            Err(cause) => {
                reveal_with_fuel(FulcioStateView::run, 2);
            },
            Ok(data) => {
                let longer = certs.push(CertificateView::Pem(data));
                lemma_run_certs(world, longer, unread.drop_first(), rekor_path);
                if let Ok(more) = read_certs(unread.drop_first(), world.cert_at) {
                    assert(longer + more =~= certs + (seq![CertificateView::Pem(data)] + more));
                }
            },
        }
    }
}

/// The search comes to the data that its arguments ask for.
pub proof fn fulcio_search_finds_data<R>(args: FulcioArgsView, world: FulcioWorld<R>)
    ensures
        args.start::<R>().run(world) == match world.data(args) {
            Ok(data) => FulcioStateView::Done { data },
            Err(error) => FulcioStateView::Failed { error },
        },
{
    reveal_with_fuel(FulcioStateView::run, 4);
    if args.custom() == Ok::<bool, ArgErrorView>(true) {
        if let Ok(paths) = args.cert_paths() {
            lemma_run_certs(world, Seq::empty(), paths, args.rekor_public_key_path);
            if let Ok(more) = read_certs(paths, world.cert_at) {
                assert(Seq::<CertificateView>::empty() + more =~= more);
            }
        }
    }
}

/// Data of the command line's own always has a certificate for each of its files and a public
/// key.
pub proof fn custom_data_is_complete<R>(args: FulcioArgsView, world: FulcioWorld<R>)
    requires
        args.custom() == Ok::<bool, ArgErrorView>(true),
        world.data(args) is Ok,
    ensures
        world.data(args)->Ok_0 matches Some(
            FulcioAndRekorDataView::FromCustomData { fulcio_certs, rekor_public_key },
        ) && fulcio_certs.len() > 0 && fulcio_certs.len() == args.cert_paths()->Ok_0.len()
            && rekor_public_key is Some,
{
    lemma_one_cert_each(args.cert_paths()->Ok_0, world.cert_at);
}

proof fn lemma_one_cert_each(
    paths: Seq<Seq<char>>,
    cert_at: spec_fn(Seq<char>) -> Result<Seq<u8>, Seq<char>>,
)
    requires
        read_certs(paths, cert_at) is Ok,
    ensures
        read_certs(paths, cert_at)->Ok_0.len() == paths.len(),
    decreases paths.len(),
{
    if paths.len() > 0 {
        lemma_one_cert_each(paths.drop_first(), cert_at);
    }
}

proof fn lemma_named_actions<R>(state: FulcioStateView<R>, world: FulcioWorld<R>)
    requires
        state is ReadCert || state is ReadRekorKey || state is Done || state is Failed,
    ensures
        forall|i: int|
            0 <= i < state.actions(world).len() ==> (#[trigger] state.actions(world)[i] is ReadCert
                || state.actions(world)[i] is ReadRekorKey),
    decreases state.steps_left(),
{
    if let Some(action) = state.action() {
        let next = state.next(world.answer(action));
        lemma_named_actions(next, world);
        assert forall|i: int| 0 <= i < state.actions(world).len() implies (
        #[trigger] state.actions(world)[i] is ReadCert || state.actions(world)[i] is ReadRekorKey) by {
            if i > 0 {
                assert(state.actions(world)[i] == next.actions(world)[i - 1]);
            }
        }
    }
}

/// Where the command line names data, nothing is done but to read certificates and a public key:
/// no directory is made, and nothing is fetched.
pub proof fn named_data_is_only_read<R>(args: FulcioArgsView, world: FulcioWorld<R>, i: int)
    requires
        args.custom() == Ok::<bool, ArgErrorView>(true),
        0 <= i < args.start::<R>().actions(world).len(),
    ensures
        args.start::<R>().actions(world)[i] is ReadCert || args.start::<R>().actions(
            world,
        )[i] is ReadRekorKey,
{
    lemma_named_actions(args.start::<R>(), world);
}

/// Without data on the command line, a repository that cannot be had is no error: there is just
/// no data.
pub proof fn unavailable_repository_is_no_error<R>(args: FulcioArgsView, world: FulcioWorld<R>)
    requires
        args.custom() == Ok::<bool, ArgErrorView>(false),
        world.checkout_present || world.checkout_created is Ok,
        world.repository is Unavailable,
    ensures
        world.data(args) == Ok::<Option<FulcioAndRekorDataView<R>>, FulcioErrorView>(None),
{
}

proof fn lemma_all_certs_read(
    paths: Seq<Seq<char>>,
    cert_at: spec_fn(Seq<char>) -> Result<Seq<u8>, Seq<char>>,
    contents: Seq<Seq<u8>>,
)
    requires
        paths.len() == contents.len(),
        forall|i: int|
            0 <= i < paths.len() ==> cert_at(#[trigger] paths[i]) == Ok::<Seq<u8>, Seq<char>>(
                contents[i],
            ),
    ensures
        read_certs(paths, cert_at) == Ok::<Seq<CertificateView>, Seq<char>>(
            contents.map_values(|data: Seq<u8>| CertificateView::Pem(data)),
        ),
    decreases paths.len(),
{
    let certs = contents.map_values(|data: Seq<u8>| CertificateView::Pem(data));
    if paths.len() > 0 {
        let rest = contents.drop_first();
        assert(cert_at(paths[0]) == Ok::<Seq<u8>, Seq<char>>(contents[0]));
        assert forall|i: int| 0 <= i < paths.drop_first().len() implies cert_at(
            #[trigger] paths.drop_first()[i],
        ) == Ok::<Seq<u8>, Seq<char>>(rest[i]) by {
            assert(cert_at(paths[i + 1]) == Ok::<Seq<u8>, Seq<char>>(contents[i + 1]));
        }
        lemma_all_certs_read(paths.drop_first(), cert_at, rest);
        assert(seq![CertificateView::Pem(contents[0])] + rest.map_values(
            |data: Seq<u8>| CertificateView::Pem(data),
        ) =~= certs);
    } else {
        assert(certs =~= Seq::empty());
    }
}

proof fn lemma_first_unreadable_cert(
    paths: Seq<Seq<char>>,
    cert_at: spec_fn(Seq<char>) -> Result<Seq<u8>, Seq<char>>,
    bad: int,
    cause: Seq<char>,
)
    requires
        0 <= bad < paths.len(),
        forall|i: int| 0 <= i < bad ==> cert_at(#[trigger] paths[i]) is Ok,
        cert_at(paths[bad]) == Err::<Seq<u8>, Seq<char>>(cause),
    ensures
        read_certs(paths, cert_at) == Err::<Seq<CertificateView>, Seq<char>>(cause),
    decreases bad,
{
    if bad > 0 {
        assert(cert_at(paths[0]) is Ok);
        assert forall|i: int| 0 <= i < bad - 1 implies cert_at(
            #[trigger] paths.drop_first()[i],
        ) is Ok by {
            assert(cert_at(paths[i + 1]) is Ok);
        }
        lemma_first_unreadable_cert(paths.drop_first(), cert_at, bad - 1, cause);
    }
}

/// Certificate files and a public key on the command line come to data of just these: one
/// certificate for each file, in order and with its contents, and what the file of the key holds.
pub proof fn named_data_is_what_its_files_hold<R>(
    args: FulcioArgsView,
    world: FulcioWorld<R>,
    paths: Seq<Seq<char>>,
    contents: Seq<Seq<u8>>,
    key_paths: Seq<Seq<char>>,
    key: Seq<char>,
)
    requires
        args.fulcio_cert_path.content == ContentView::Values(paths),
        paths.len() > 0,
        paths.len() == contents.len(),
        forall|i: int|
            0 <= i < paths.len() ==> (world.cert_at)(#[trigger] paths[i]) == Ok::<
                Seq<u8>,
                Seq<char>,
            >(contents[i]),
        args.rekor_public_key_path.content == ContentView::Values(key_paths),
        key_paths.len() > 0,
        (world.rekor_key_at)(key_paths[0]) == Ok::<Seq<char>, Seq<char>>(key),
    ensures
        args.start::<R>().run(world) matches FulcioStateView::Done {
            data: Some(FulcioAndRekorDataView::FromCustomData { fulcio_certs, rekor_public_key }),
        } && rekor_public_key == Some(key) && fulcio_certs.len() == paths.len() && (forall|i: int|
            0 <= i < paths.len() ==> #[trigger] fulcio_certs[i] == CertificateView::Pem(
                contents[i],
            )),
{
    fulcio_search_finds_data(args, world);
    lemma_all_certs_read(paths, world.cert_at, contents);
}

/// Certificates without a public key, and a public key without certificates, are not enough, even
/// where all files can be read.
pub proof fn half_of_the_data_is_not_enough<R>(
    args: FulcioArgsView,
    world: FulcioWorld<R>,
    paths: Seq<Seq<char>>,
    contents: Seq<Seq<u8>>,
)
    requires
        args.fulcio_cert_path.content == ContentView::Values(paths) || (
        args.fulcio_cert_path.content is Absent && paths.len() == 0),
        paths.len() == contents.len(),
        forall|i: int|
            0 <= i < paths.len() ==> (world.cert_at)(#[trigger] paths[i]) == Ok::<
                Seq<u8>,
                Seq<char>,
            >(contents[i]),
        ({
            ||| args.rekor_public_key_path.content == ContentView::Values(Seq::empty())
            ||| args.rekor_public_key_path.content is Absent
                && args.fulcio_cert_path.content is Values
            ||| paths.len() == 0 && args.rekor_public_key_path.content is Values && (
            args.rekor_public_key_path.content->Values_0.len() > 0 ==> (world.rekor_key_at)(
                args.rekor_public_key_path.content->Values_0[0],
            ) is Ok)
        }),
    ensures
        args.start::<R>().run(world) == (FulcioStateView::<R>::Failed {
            error: FulcioErrorView::Incomplete,
        }),
{
    fulcio_search_finds_data(args, world);
    lemma_all_certs_read(paths, world.cert_at, contents);
}

/// The first certificate file that cannot be read stops the search with the cause, and behind
/// certificates that can all be read, so does the file of the public key.
pub proof fn unreadable_file_stops_the_search<R>(
    args: FulcioArgsView,
    world: FulcioWorld<R>,
    paths: Seq<Seq<char>>,
    bad: int,
    cause: Seq<char>,
)
    requires
        args.fulcio_cert_path.content == ContentView::Values(paths) || (
        args.fulcio_cert_path.content is Absent && paths.len() == 0),
        0 <= bad <= paths.len(),
        forall|i: int| 0 <= i < bad ==> (world.cert_at)(#[trigger] paths[i]) is Ok,
        bad < paths.len() ==> (world.cert_at)(paths[bad]) == Err::<Seq<u8>, Seq<char>>(cause),
        bad == paths.len() ==> {
            &&& args.rekor_public_key_path.content matches ContentView::Values(keys)
            &&& keys.len() > 0
            &&& (world.rekor_key_at)(keys[0]) == Err::<Seq<char>, Seq<char>>(cause)
        },
    ensures
        args.start::<R>().run(world) == (FulcioStateView::<R>::Failed {
            error: FulcioErrorView::Outside(cause),
        }),
{
    fulcio_search_finds_data(args, world);
    if bad < paths.len() {
        lemma_first_unreadable_cert(paths, world.cert_at, bad, cause);
    } else {
        let contents = Seq::new(paths.len(), |i: int| (world.cert_at)(paths[i])->Ok_0);
        lemma_all_certs_read(paths, world.cert_at, contents);
    }
}

/// Without data on the command line, the directory of the repository is made where it is not there,
/// and then the repository is fetched: it is the data where it can be had. A directory that cannot
/// be made and a fetch that is cut off are errors.
pub proof fn repository_is_fetched<R>(args: FulcioArgsView, world: FulcioWorld<R>)
    requires
        args.fulcio_cert_path.content is Absent,
        args.rekor_public_key_path.content is Absent,
    ensures
        world.checkout_present ==> args.start::<R>().actions(world) == seq![
            FulcioActionView::ProbeCheckout,
            FulcioActionView::FetchRepository,
        ],
        !world.checkout_present && world.checkout_created is Ok ==> args.start::<R>().actions(world)
            == seq![
            FulcioActionView::ProbeCheckout,
            FulcioActionView::CreateCheckout,
            FulcioActionView::FetchRepository,
        ],
        !world.checkout_present ==> (world.checkout_created matches Err(cause)
            ==> args.start::<R>().run(world) == (FulcioStateView::<R>::Failed {
            error: FulcioErrorView::Outside(cause),
        }) && args.start::<R>().actions(world) == seq![
            FulcioActionView::ProbeCheckout,
            FulcioActionView::CreateCheckout,
        ]),
        world.checkout_present || world.checkout_created is Ok ==> {
            &&& world.repository matches FetchView::Fetched(repo) ==> args.start::<R>().run(world)
                == (FulcioStateView::Done {
                data: Some(FulcioAndRekorDataView::FromTufRepository { repo }),
            })
            &&& world.repository is Unavailable ==> args.start::<R>().run(world) == (
            FulcioStateView::<R>::Done { data: None })
            &&& world.repository matches FetchView::CutOff(cause) ==> args.start::<R>().run(world)
                == (FulcioStateView::<R>::Failed { error: FulcioErrorView::Outside(cause) })
        },
{
    reveal_with_fuel(FulcioStateView::run, 5);
    reveal_with_fuel(FulcioStateView::actions, 5);
    let actions = args.start::<R>().actions(world);
    if world.checkout_present {
        assert(actions =~= seq![
            FulcioActionView::ProbeCheckout,
            FulcioActionView::FetchRepository,
        ]);
    } else if world.checkout_created is Ok {
        assert(actions =~= seq![
            FulcioActionView::ProbeCheckout,
            FulcioActionView::CreateCheckout,
            FulcioActionView::FetchRepository,
        ]);
    } else {
        assert(actions =~= seq![
            FulcioActionView::ProbeCheckout,
            FulcioActionView::CreateCheckout,
        ]);
    }
}

proof fn lemma_cert_actions<R>(
    certs: Seq<CertificateView>,
    unread: Seq<Seq<char>>,
    rekor_path: ArgView,
    world: FulcioWorld<R>,
    i: int,
)
    requires
        0 <= i < with_certs::<R>(certs, unread, rekor_path).actions(world).len(),
    ensures
        i <= unread.len(),
        i < unread.len() ==> with_certs::<R>(certs, unread, rekor_path).actions(world)[i]
            == FulcioActionView::ReadCert(unread[i]),
        i == unread.len() ==> {
            &&& rekor_path.content matches ContentView::Values(keys)
            &&& keys.len() > 0
            &&& with_certs::<R>(certs, unread, rekor_path).actions(world)[i]
                == FulcioActionView::ReadRekorKey(keys[0])
        },
    decreases unread.len(),
{
    reveal_with_fuel(FulcioStateView::actions, 2);
    if unread.len() > 0 && i > 0 {
        if let Ok(data) = (world.cert_at)(unread.first()) {
            lemma_cert_actions(
                certs.push(CertificateView::Pem(data)),
                unread.drop_first(),
                rekor_path,
                world,
                i - 1,
            );
        }
    }
}

/// Where the command line names data, its certificate files are read in order, and then its public
/// key.
pub proof fn named_files_are_read_in_order<R>(
    args: FulcioArgsView,
    world: FulcioWorld<R>,
    paths: Seq<Seq<char>>,
    i: int,
)
    requires
        args.fulcio_cert_path.content == ContentView::Values(paths),
        0 <= i < args.start::<R>().actions(world).len(),
    ensures
        i <= paths.len(),
        i < paths.len() ==> args.start::<R>().actions(world)[i] == FulcioActionView::ReadCert(
            paths[i],
        ),
        i == paths.len() ==> (args.rekor_public_key_path.content matches ContentView::Values(keys)
            && keys.len() > 0 && args.start::<R>().actions(world)[i]
            == FulcioActionView::ReadRekorKey(keys[0])),
{
    lemma_cert_actions(Seq::empty(), paths, args.rekor_public_key_path, world, i);
}

/// The search takes in exactly the answers to what it asks for, and asks for nothing at its end.
pub proof fn fulcio_search_takes_answers_to_its_action<R>(
    state: FulcioStateView<R>,
    event: FulcioEventView<R>,
)
    ensures
        state.awaits(event) == match state.action() {
            Some(FulcioActionView::ReadCert(_)) => event is CertRead,
            Some(FulcioActionView::ReadRekorKey(_)) => event is RekorKeyRead,
            Some(FulcioActionView::ProbeCheckout) => event is CheckoutProbed,
            Some(FulcioActionView::CreateCheckout) => event is CheckoutCreated,
            Some(FulcioActionView::FetchRepository) => event is RepositoryFetched,
            None => false,
        },
        state is Done || state is Failed ==> state.action() is None,
{
}

/// The outcome of a search is what it ended with, and there is none before its end.
pub proof fn fulcio_outcome_is_the_end<R>(
    state: FulcioState<R>,
    data: Option<FulcioAndRekorData<R>>,
    error: FulcioError,
)
    ensures
        state.result() is Some == (state is Done || state is Failed),
        (FulcioState::Done { data }).result() == Some(
            Ok::<Option<FulcioAndRekorData<R>>, FulcioError>(data),
        ),
        (FulcioState::<R>::Failed { error }).result() == Some(
            Err::<Option<FulcioAndRekorData<R>>, FulcioError>(error),
        ),
{
}

/// Arguments, data, states, events, actions and errors show their own parts.
pub proof fn fulcio_shows_its_parts<R>(
    args: FulcioArgs,
    certs: Vec<Certificate>,
    bytes: Vec<u8>,
    unread: PathQueue,
    rekor: Arg,
    path: String,
    key: Option<String>,
    repo: R,
    data: Option<FulcioAndRekorData<R>>,
    error: FulcioError,
    arg_error: ArgError,
    fetch: Fetch<R>,
    present: bool,
)
    ensures
        args@.fulcio_cert_path == args.fulcio_cert_path@,
        args@.rekor_public_key_path == args.rekor_public_key_path@,
        Certificate::Pem(bytes).deep_view() == CertificateView::Pem(bytes@),
        (FulcioAndRekorData::<R>::FromCustomData { fulcio_certs: certs, rekor_public_key: key })@
            == (FulcioAndRekorDataView::<R>::FromCustomData {
            fulcio_certs: certs.deep_view(),
            rekor_public_key: key.deep_view(),
        }),
        (FulcioAndRekorData::FromTufRepository { repo })@ == (
        FulcioAndRekorDataView::FromTufRepository { repo }),
        data is Some ==> data->0.deep_view() == data->0@,
        FulcioError::Outside(path)@ == FulcioErrorView::Outside(path@),
        FulcioError::Incomplete@ == FulcioErrorView::Incomplete,
        FulcioError::Argument(arg_error)@ == FulcioErrorView::Argument(arg_error@),
        Fetch::Fetched(repo)@ == FetchView::Fetched(repo),
        Fetch::<R>::Unavailable(path)@ == FetchView::<R>::Unavailable(path@),
        Fetch::<R>::CutOff(path)@ == FetchView::<R>::CutOff(path@),
        (FulcioState::<R>::ReadCert { certs, unread, rekor_path: rekor })@ == (FulcioStateView::<
            R,
        >::ReadCert { certs: certs.deep_view(), unread: unread@, rekor_path: rekor@ }),
        (FulcioState::<R>::ReadRekorKey { certs, path })@ == (FulcioStateView::<R>::ReadRekorKey {
            certs: certs.deep_view(),
            path: path@,
        }),
        FulcioState::<R>::ProbeCheckout@ == FulcioStateView::<R>::ProbeCheckout,
        FulcioState::<R>::CreateCheckout@ == FulcioStateView::<R>::CreateCheckout,
        FulcioState::<R>::FetchRepository@ == FulcioStateView::<R>::FetchRepository,
        (FulcioState::Done { data })@ == (FulcioStateView::Done { data: data.deep_view() }),
        (FulcioState::<R>::Failed { error })@ == (FulcioStateView::<R>::Failed { error: error@ }),
        FulcioAction::ReadCert(&path).deep_view() == FulcioActionView::ReadCert(path@),
        FulcioAction::ReadRekorKey(&path).deep_view() == FulcioActionView::ReadRekorKey(path@),
        FulcioAction::ProbeCheckout.deep_view() == FulcioActionView::ProbeCheckout,
        FulcioAction::CreateCheckout.deep_view() == FulcioActionView::CreateCheckout,
        FulcioAction::FetchRepository.deep_view() == FulcioActionView::FetchRepository,
        FulcioEvent::<R>::CertRead(Ok(bytes))@ == FulcioEventView::<R>::CertRead(Ok(bytes@)),
        FulcioEvent::<R>::CertRead(Err(path))@ == FulcioEventView::<R>::CertRead(Err(path@)),
        FulcioEvent::<R>::RekorKeyRead(Ok(path))@ == FulcioEventView::<R>::RekorKeyRead(Ok(path@)),
        FulcioEvent::<R>::RekorKeyRead(Err(path))@ == FulcioEventView::<R>::RekorKeyRead(
            Err(path@),
        ),
        FulcioEvent::<R>::CheckoutProbed(present)@ == FulcioEventView::<R>::CheckoutProbed(present),
        FulcioEvent::<R>::CheckoutCreated(Ok(()))@ == FulcioEventView::<R>::CheckoutCreated(Ok(())),
        FulcioEvent::<R>::CheckoutCreated(Err(path))@ == FulcioEventView::<R>::CheckoutCreated(
            Err(path@),
        ),
        FulcioEvent::RepositoryFetched(fetch)@ == FulcioEventView::RepositoryFetched(fetch@),
{
}

/// An argument on certificates or on the public key that cannot be read never passes for one that
/// is not there: the search fails with it, once it is needed.
pub proof fn unreadable_fulcio_argument_is_no_absent_one<R>(
    args: FulcioArgsView,
    world: FulcioWorld<R>,
    paths: Seq<Seq<char>>,
    contents: Seq<Seq<u8>>,
)
    ensures
        args.fulcio_cert_path.content is Unknown || args.fulcio_cert_path.content is Foreign
            ==> args.start::<R>() == (FulcioStateView::<R>::Failed {
            error: FulcioErrorView::Argument(ArgErrorView::Unreadable(args.fulcio_cert_path.id)),
        }),
        args.fulcio_cert_path.content is Absent && (args.rekor_public_key_path.content is Unknown
            || args.rekor_public_key_path.content is Foreign) ==> args.start::<R>() == (
        FulcioStateView::<R>::Failed {
            error: FulcioErrorView::Argument(
                ArgErrorView::Unreadable(args.rekor_public_key_path.id),
            ),
        }),
        args.fulcio_cert_path.content == ContentView::Values(paths) && paths.len() == contents.len()
            && (forall|i: int|
            0 <= i < paths.len() ==> (world.cert_at)(#[trigger] paths[i]) == Ok::<
                Seq<u8>,
                Seq<char>,
            >(contents[i])) && (args.rekor_public_key_path.content is Unknown
            || args.rekor_public_key_path.content is Foreign) ==> args.start::<R>().run(world) == (
        FulcioStateView::<R>::Failed {
            error: FulcioErrorView::Argument(
                ArgErrorView::Unreadable(args.rekor_public_key_path.id),
            ),
        }),
{
    fulcio_search_finds_data(args, world);
    if paths.len() == contents.len() && (forall|i: int|
        0 <= i < paths.len() ==> (world.cert_at)(#[trigger] paths[i]) == Ok::<Seq<u8>, Seq<char>>(
            contents[i],
        )) {
        lemma_all_certs_read(paths, world.cert_at, contents);
    }
}

} // verus!
