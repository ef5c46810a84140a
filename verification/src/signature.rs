//! What a verification configuration asks of a policy's signatures.

use crate::table::Table;
use vstd::prelude::*;

verus! {

/// Key/value pairs that a signature has to carry.
pub type Annotations = Table<String>;

/// The identity that a certificate has to name.
pub enum Subject {
    Equal(String),
    UrlPrefix(String),
}

pub enum SubjectView {
    Equal(Seq<char>),
    UrlPrefix(Seq<char>),
}

impl View for Subject {
    type V = SubjectView;

    open spec fn view(&self) -> SubjectView {
        match *self {
            Subject::Equal(name) => SubjectView::Equal(name@),
            Subject::UrlPrefix(prefix) => SubjectView::UrlPrefix(prefix@),
        }
    }
}

/// One signature that a policy may be asked to have.
#[allow(inconsistent_fields)]
pub enum Signature {
    PubKey { owner: Option<String>, key: String, annotations: Option<Annotations> },
    GenericIssuer { issuer: String, subject: Subject, annotations: Option<Annotations> },
    GithubAction { owner: String, repo: Option<String>, annotations: Option<Annotations> },
}

#[allow(inconsistent_fields)]
pub enum SignatureView {
    PubKey {
        owner: Option<Seq<char>>,
        key: Seq<char>,
        annotations: Option<Map<Seq<char>, Seq<char>>>,
    },
    GenericIssuer {
        issuer: Seq<char>,
        subject: SubjectView,
        annotations: Option<Map<Seq<char>, Seq<char>>>,
    },
    GithubAction {
        owner: Seq<char>,
        repo: Option<Seq<char>>,
        annotations: Option<Map<Seq<char>, Seq<char>>>,
    },
}

impl SignatureView {
    /// The annotations that the signature has to carry.
    pub open spec fn required_annotations(self) -> Option<Map<Seq<char>, Seq<char>>> {
        match self {
            SignatureView::PubKey { annotations, .. } => annotations,
            SignatureView::GenericIssuer { annotations, .. } => annotations,
            SignatureView::GithubAction { annotations, .. } => annotations,
        }
    }
}

impl View for Signature {
    type V = SignatureView;

    open spec fn view(&self) -> SignatureView {
        match *self {
            Signature::PubKey { owner, key, annotations } => SignatureView::PubKey {
                owner: owner.deep_view(),
                key: key@,
                annotations: annotations.deep_view(),
            },
            Signature::GenericIssuer { issuer, subject, annotations } => SignatureView::GenericIssuer {
                issuer: issuer@,
                subject: subject@,
                annotations: annotations.deep_view(),
            },
            Signature::GithubAction { owner, repo, annotations } => SignatureView::GithubAction {
                owner: owner@,
                repo: repo.deep_view(),
                annotations: annotations.deep_view(),
            },
        }
    }
}

impl DeepView for Signature {
    type V = SignatureView;

    open spec fn deep_view(&self) -> SignatureView {
        self@
    }
}

/// A choice of signatures of which a minimum has to be found.
pub struct AnyOf {
    pub minimum_matches: u8,
    pub signatures: Vec<Signature>,
}

pub struct AnyOfView {
    pub minimum_matches: u8,
    pub signatures: Seq<SignatureView>,
}

impl DeepView for AnyOf {
    type V = AnyOfView;

    open spec fn deep_view(&self) -> AnyOfView {
        AnyOfView {
            minimum_matches: self.minimum_matches,
            signatures: self.signatures.deep_view(),
        }
    }
}

/// The signatures that a policy has to have.
pub struct VerificationConfig {
    pub all_of: Option<Vec<Signature>>,
    pub any_of: Option<AnyOf>,
}

pub struct VerificationConfigView {
    pub all_of: Option<Seq<SignatureView>>,
    pub any_of: Option<AnyOfView>,
}

impl View for VerificationConfig {
    type V = VerificationConfigView;

    open spec fn view(&self) -> VerificationConfigView {
        VerificationConfigView {
            all_of: self.all_of.deep_view(),
            any_of: self.any_of.deep_view(),
        }
    }
}

impl DeepView for VerificationConfig {
    type V = VerificationConfigView;

    open spec fn deep_view(&self) -> VerificationConfigView {
        self@
    }
}

/// What a signature shows is its own parts, each in its place.
pub proof fn signatures_show_their_parts(
    owner: Option<String>,
    name: String,
    subject: Subject,
    annotations: Option<Annotations>,
)
    ensures
        (Signature::PubKey { owner, key: name, annotations })@ == (SignatureView::PubKey {
            owner: owner.deep_view(),
            key: name@,
            annotations: annotations.deep_view(),
        }),
        (Signature::GenericIssuer { issuer: name, subject, annotations })@ == (
        SignatureView::GenericIssuer {
            issuer: name@,
            subject: subject@,
            annotations: annotations.deep_view(),
        }),
        (Signature::GithubAction { owner: name, repo: owner, annotations })@ == (
        SignatureView::GithubAction {
            owner: name@,
            repo: owner.deep_view(),
            annotations: annotations.deep_view(),
        }),
        Subject::Equal(name)@ == SubjectView::Equal(name@),
        Subject::UrlPrefix(name)@ == SubjectView::UrlPrefix(name@),
{
}

/// What a configuration shows is all of its signatures, in their order.
pub proof fn configurations_show_their_signatures(
    config: VerificationConfig,
    any_of: AnyOf,
    signature: Signature,
)
    ensures
        signature.deep_view() == signature@,
        config.deep_view() == config@,
        config@.all_of == config.all_of.deep_view(),
        config@.any_of == config.any_of.deep_view(),
        any_of.deep_view().minimum_matches == any_of.minimum_matches,
        any_of.deep_view().signatures == any_of.signatures.deep_view(),
        config.all_of matches Some(signatures) ==> {
            &&& config@.all_of matches Some(shown)
            &&& shown.len() == signatures@.len()
            &&& forall|i: int| 0 <= i < shown.len() ==> #[trigger] shown[i] == signatures@[i]@
        },
{
}

} // verus!
