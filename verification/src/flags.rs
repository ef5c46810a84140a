//! The verification options that stand on the command line.

use crate::files::PathQueue;
use crate::signature::{
    Annotations, Signature, SignatureView, Subject, SubjectView, VerificationConfig,
    VerificationConfigView,
};
use crate::table::Table;
use crate::text;
use vstd::prelude::*;

verus! {

/// The values of each verification flag, where the flag is there.
pub struct VerificationFlags {
    pub verification_key: Option<Vec<String>>,
    pub verification_annotation: Option<Vec<String>>,
    pub cert_email: Option<Vec<String>>,
    pub cert_oidc_issuer: Option<Vec<String>>,
    pub github_owner: Option<Vec<String>>,
    pub github_repo: Option<Vec<String>>,
}

pub struct VerificationFlagsView {
    pub verification_key: Option<Seq<Seq<char>>>,
    pub verification_annotation: Option<Seq<Seq<char>>>,
    pub cert_email: Option<Seq<Seq<char>>>,
    pub cert_oidc_issuer: Option<Seq<Seq<char>>>,
    pub github_owner: Option<Seq<Seq<char>>>,
    pub github_repo: Option<Seq<Seq<char>>>,
}

impl View for VerificationFlags {
    type V = VerificationFlagsView;

    open spec fn view(&self) -> VerificationFlagsView {
        VerificationFlagsView {
            verification_key: self.verification_key.deep_view(),
            verification_annotation: self.verification_annotation.deep_view(),
            cert_email: self.cert_email.deep_view(),
            cert_oidc_issuer: self.cert_oidc_issuer.deep_view(),
            github_owner: self.github_owner.deep_view(),
            github_repo: self.github_repo.deep_view(),
        }
    }
}

/// Why the verification flags cannot be used together.
#[derive(Clone, Copy, PartialEq, Eq, Structural, Debug)]
pub enum FlagError {
    /// Annotations were given, but nobody whose signature should carry them.
    AnnotationsWithoutSigner,
    /// A GitHub repository was given without its owner.
    RepositoryWithoutOwner,
    /// One of certificate email and OIDC issuer was given without the other.
    IncompleteIssuer,
}

/// The pairs that `items` of the form `key=value` give. An item without `=` gives none, and a
/// later item takes the place of an earlier one with the same key.
pub open spec fn annotation_pairs(items: Seq<Seq<char>>) -> Map<Seq<char>, Seq<char>>
    decreases items.len(),
{
    if items.len() == 0 {
        Map::empty()
    } else {
        let before = annotation_pairs(items.drop_last());
        match text::split_at_equals(items.last()) {
            Some((key, value)) => before.insert(key, value),
            None => before,
        }
    }
}

/// All values of a flag as one string.
pub open spec fn joined(values: Option<Seq<Seq<char>>>) -> Option<Seq<char>> {
    match values {
        Some(values) => Some(values.flatten()),
        None => None,
    }
}

impl VerificationFlagsView {
    /// The annotations that every signature has to carry.
    pub open spec fn annotations(self) -> Option<Map<Seq<char>, Seq<char>>> {
        match self.verification_annotation {
            Some(items) => {
                let pairs = annotation_pairs(items);
                if pairs.is_empty() {
                    None
                } else {
                    Some(pairs)
                }
            },
            None => None,
        }
    }

    /// Whether no flag asks for a verification.
    pub open spec fn unused(self) -> bool {
        &&& self.verification_key is None
        &&& self.annotations() is None
        &&& self.cert_email is None
        &&& self.cert_oidc_issuer is None
        &&& self.github_owner is None
        &&& self.github_repo is None
    }

    /// Whether nobody is named whose signature could be looked for.
    pub open spec fn no_signer(self) -> bool {
        &&& self.verification_key is None
        &&& self.cert_email is None
        &&& self.cert_oidc_issuer is None
        &&& self.github_owner is None
    }

    /// What is wrong with the flags, the first of these that applies.
    pub open spec fn error(self) -> Option<FlagError> {
        if self.no_signer() && self.annotations() is Some {
            Some(FlagError::AnnotationsWithoutSigner)
        } else if self.github_repo is Some && self.github_owner is None {
            Some(FlagError::RepositoryWithoutOwner)
        } else if self.cert_email is Some != self.cert_oidc_issuer is Some {
            Some(FlagError::IncompleteIssuer)
        } else {
            None
        }
    }

    /// The files that hold the public keys, in the order in which they are read.
    pub open spec fn key_paths(self) -> Seq<Seq<char>> {
        match self.verification_key {
            Some(paths) => paths,
            None => Seq::empty(),
        }
    }

    /// The signature that the certificate flags ask for.
    pub open spec fn issuer_signatures(self) -> Seq<SignatureView> {
        match (joined(self.cert_oidc_issuer), joined(self.cert_email)) {
            (Some(issuer), Some(email)) => seq![
                SignatureView::GenericIssuer {
                    issuer,
                    subject: SubjectView::Equal(email),
                    annotations: self.annotations(),
                },
            ],
            _ => Seq::empty(),
        }
    }

    /// The signature that the GitHub flags ask for.
    pub open spec fn github_signatures(self) -> Seq<SignatureView> {
        match joined(self.github_owner) {
            Some(owner) => seq![
                SignatureView::GithubAction {
                    owner,
                    repo: joined(self.github_repo),
                    annotations: self.annotations(),
                },
            ],
            None => Seq::empty(),
        }
    }

    /// All signatures that the flags ask for, where `keys` is what the key files hold.
    pub open spec fn signatures(self, keys: Seq<Seq<char>>) -> Seq<SignatureView> {
        self.issuer_signatures() + self.github_signatures() + key_signatures(
            keys,
            self.annotations(),
        )
    }
}

/// One signature for each public key.
pub open spec fn key_signatures(
    keys: Seq<Seq<char>>,
    annotations: Option<Map<Seq<char>, Seq<char>>>,
) -> Seq<SignatureView> {
    keys.map_values(
        |key: Seq<char>| SignatureView::PubKey { owner: None, key, annotations },
    )
}

/// A configuration that asks for all of `signatures`.
pub open spec fn all_of(signatures: Seq<SignatureView>) -> VerificationConfigView {
    VerificationConfigView {
        all_of: if signatures.len() == 0 {
            None
        } else {
            Some(signatures)
        },
        any_of: None,
    }
}

/// A configuration made of flags, up to the public keys that are still to be read.
pub struct PendingConfig {
    signatures: Vec<Signature>,
    annotations: Option<Annotations>,
    key_paths: PathQueue,
}

impl PendingConfig {
    /// The signatures that are known so far.
    pub closed spec fn signatures(self) -> Seq<SignatureView> {
        self.signatures.deep_view()
    }

    /// The annotations that the signatures have to carry.
    pub closed spec fn annotations(self) -> Option<Map<Seq<char>, Seq<char>>> {
        self.annotations.deep_view()
    }

    /// The key files that are still to be read.
    pub closed spec fn unread(self) -> Seq<Seq<char>> {
        self.key_paths@
    }

    /// The key file to read next.
    pub fn next_key_path(&self) -> (res: Option<&String>)
        ensures
            match res {
                Some(path) => self.unread().len() > 0 && path@ == self.unread().first(),
                None => self.unread().len() == 0,
            },
    {
        self.key_paths.next()
    }

    /// Takes in what the next key file holds.
    pub fn add_key(self, key: String) -> (res: PendingConfig)
        requires
            self.unread().len() > 0,
        ensures
            res.annotations() == self.annotations(),
            res.unread() == self.unread().drop_first(),
            res.signatures() == self.signatures().push(
                SignatureView::PubKey { owner: None, key: key@, annotations: self.annotations() },
            ),
    {
        let ghost before = self;
        let ghost text = key@;
        let PendingConfig { mut signatures, annotations, key_paths } = self;
        signatures.push(
            Signature::PubKey { owner: None, key, annotations: duplicate(&annotations) },
        );
        let res = PendingConfig { signatures, annotations, key_paths: key_paths.tail() };
        assert(res.signatures() =~= before.signatures().push(
            SignatureView::PubKey { owner: None, key: text, annotations: before.annotations() },
        ));
        res
    }

    /// The configuration, once all key files were read.
    pub fn finish(self) -> (res: VerificationConfig)
        requires
            self.unread().len() == 0,
        ensures
            res@ == all_of(self.signatures()),
    {
        let all_of = if self.signatures.len() == 0 {
            None
        } else {
            Some(self.signatures)
        };
        VerificationConfig { all_of, any_of: None }
    }
}

fn duplicate(annotations: &Option<Annotations>) -> (res: Option<Annotations>)
    ensures
        res.deep_view() == annotations.deep_view(),
{
    match annotations {
        Some(annotations) => Some(annotations.duplicate()),
        None => None,
    }
}

fn join(values: &Option<Vec<String>>) -> (res: Option<String>)
    ensures
        res.deep_view() == joined(values.deep_view()),
{
    match values {
        Some(values) => Some(text::concat_all(values)),
        None => None,
    }
}

/// The annotations that `items` of the form `key=value` give, if there are any.
pub fn parse_annotations(items: &Vec<String>) -> (res: Option<Annotations>)
    ensures
        res.deep_view() == if annotation_pairs(items.deep_view()).is_empty() {
            None
        } else {
            Some(annotation_pairs(items.deep_view()))
        },
{
    let mut values: Annotations = Table::new();
    let ghost views = items.deep_view();
    for i in 0..items.len()
        invariant
            views == items.deep_view(),
            values@ == annotation_pairs(views.take(i as int)),
    {
        proof {
            assert(views.take(i + 1).drop_last() =~= views.take(i as int));
            assert(views.take(i + 1).last() == items[i as int]@);
        }
        match text::split_once_equals(items[i].as_str()) {
            Some((key, value)) => {
                values = values.insert(key, value);
            },
            None => {},
        }
    }
    assert(views.take(items.len() as int) =~= views);
    if values.is_empty() {
        None
    } else {
        Some(values)
    }
}

/// Builds a configuration that holds all public keys and annotations of the flags, up to the
/// contents of the key files. Where no flag asks for a verification, there is none.
pub fn build_verification_options_from_flags(flags: &VerificationFlags) -> (res: Result<
    Option<PendingConfig>,
    FlagError,
>)
    ensures
        match res {
            Ok(None) => flags@.unused(),
            Ok(Some(pending)) => {
                &&& !flags@.unused()
                &&& flags@.error() is None
                &&& pending.signatures() == flags@.signatures(Seq::empty())
                &&& pending.annotations() == flags@.annotations()
                &&& pending.unread() == flags@.key_paths()
            },
            Err(error) => flags@.error() == Some(error),
        },
{
    let annotations = match &flags.verification_annotation {
        Some(items) => parse_annotations(items),
        None => None,
    };
    let cert_email = join(&flags.cert_email);
    let cert_oidc_issuer = join(&flags.cert_oidc_issuer);
    let github_owner = join(&flags.github_owner);
    let github_repo = join(&flags.github_repo);
    let key_files = &flags.verification_key;
    assert(annotations.deep_view() == flags@.annotations());

    if key_files.is_none() && annotations.is_none() && cert_email.is_none()
        && cert_oidc_issuer.is_none() && github_owner.is_none() && github_repo.is_none() {
        return Ok(None);
    }
    if key_files.is_none() && cert_email.is_none() && cert_oidc_issuer.is_none()
        && github_owner.is_none() && annotations.is_some() {
        return Err(FlagError::AnnotationsWithoutSigner);
    }
    if github_repo.is_some() && github_owner.is_none() {
        return Err(FlagError::RepositoryWithoutOwner);
    }
    let mut signatures: Vec<Signature> = Vec::new();
    match (cert_oidc_issuer, cert_email) {
        (Some(issuer), Some(email)) => {
            signatures.push(
                Signature::GenericIssuer {
                    issuer,
                    subject: Subject::Equal(email),
                    annotations: duplicate(&annotations),
                },
            );
        },
        (None, None) => {},
        _ => {
            return Err(FlagError::IncompleteIssuer);
        },
    }
    assert(signatures.deep_view() =~= flags@.issuer_signatures());
    match github_owner {
        Some(owner) => {
            signatures.push(
                Signature::GithubAction {
                    owner,
                    repo: github_repo,
                    annotations: duplicate(&annotations),
                },
            );
        },
        None => {},
    }
    assert(signatures.deep_view() =~= flags@.issuer_signatures() + flags@.github_signatures());
    let key_paths = match key_files {
        Some(paths) => paths.clone(),
        None => Vec::new(),
    };
    assert(key_paths.deep_view() =~= flags@.key_paths());
    let pending = PendingConfig { signatures, annotations, key_paths: PathQueue::new(key_paths) };
    assert(pending.signatures() =~= flags@.signatures(Seq::empty()));
    Ok(Some(pending))
}

/// Every signature that the flags ask for has to carry all of their annotations.
pub proof fn every_signature_carries_the_annotations(
    flags: VerificationFlagsView,
    keys: Seq<Seq<char>>,
    i: int,
)
    requires
        0 <= i < flags.signatures(keys).len(),
    ensures
        flags.signatures(keys)[i].required_annotations() == flags.annotations(),
{
}

/// A signature is asked for with each public key that was passed.
pub proof fn every_key_is_asked_for(flags: VerificationFlagsView, keys: Seq<Seq<char>>, i: int)
    requires
        0 <= i < keys.len(),
    ensures
        flags.signatures(keys).contains(
            SignatureView::PubKey { owner: None, key: keys[i], annotations: flags.annotations() },
        ),
{
    let before = flags.issuer_signatures() + flags.github_signatures();
    let signatures = flags.signatures(keys);
    assert(signatures[before.len() + i] == key_signatures(keys, flags.annotations())[i]);
}

/// Flags that are in use and fit together ask for a signature, but for a list of key files that
/// is there and empty.
pub proof fn flags_in_use_ask_for_a_signature(
    flags: VerificationFlagsView,
    keys: Seq<Seq<char>>,
)
    requires
        !flags.unused(),
        flags.error() is None,
        keys.len() == flags.key_paths().len(),
        flags.verification_key is Some ==> flags.key_paths().len() > 0,
    ensures
        all_of(flags.signatures(keys)).all_of is Some,
{
}

/// A key has a value exactly where some item gives it one.
pub proof fn annotation_keys_come_from_items(items: Seq<Seq<char>>, key: Seq<char>)
    ensures
        annotation_pairs(items).contains_key(key) == exists|i: int|
            0 <= i < items.len() && gives(#[trigger] items[i], key),
    decreases items.len(),
{
    if items.len() > 0 {
        let before = items.drop_last();
        annotation_keys_come_from_items(before, key);
        if exists|i: int| 0 <= i < before.len() && gives(#[trigger] before[i], key) {
            let i = choose|i: int| 0 <= i < before.len() && gives(#[trigger] before[i], key);
            assert(gives(items[i], key));
        }
        if gives(items.last(), key) {
            assert(gives(items[items.len() - 1], key));
        }
        if exists|i: int| 0 <= i < items.len() && gives(#[trigger] items[i], key) {
            let i = choose|i: int| 0 <= i < items.len() && gives(#[trigger] items[i], key);
            if i < before.len() {
                assert(gives(before[i], key));
            }
        }
    }
}

/// An item without `=` changes nothing, wherever it stands.
pub proof fn item_without_equals_changes_nothing(
    before: Seq<Seq<char>>,
    item: Seq<char>,
    after: Seq<Seq<char>>,
)
    requires
        !item.contains('='),
    ensures
        annotation_pairs(before + seq![item] + after) == annotation_pairs(before + after),
    decreases after.len(),
{
    text::halves_make_the_item(item);
    let with = before + seq![item] + after;
    let without = before + after;
    if after.len() == 0 {
        assert(with.drop_last() =~= before);
        assert(without =~= before);
        if let Some((key, value)) = text::split_at_equals(item) {
            assert((key + seq!['='] + value)[key.len() as int] == '=');
        }
    } else {
        item_without_equals_changes_nothing(before, item, after.drop_last());
        assert(with.drop_last() =~= before + seq![item] + after.drop_last());
        assert(without.drop_last() =~= before + after.drop_last());
    }
}

/// Whether an item gives `key` a value.
pub open spec fn gives(item: Seq<char>, key: Seq<char>) -> bool {
    match text::split_at_equals(item) {
        Some((found, _)) => found == key,
        None => false,
    }
}

/// Of several items with the same key the last one counts.
pub proof fn last_annotation_counts(items: Seq<Seq<char>>, i: int, key: Seq<char>)
    requires
        0 <= i < items.len(),
        gives(items[i], key),
        forall|j: int| i < j < items.len() ==> !gives(#[trigger] items[j], key),
    ensures
        annotation_pairs(items).contains_key(key),
        Some((key, annotation_pairs(items)[key])) == text::split_at_equals(items[i]),
    decreases items.len(),
{
    if i < items.len() - 1 {
        let before = items.drop_last();
        assert(!gives(items[items.len() - 1], key));
        assert forall|j: int| i < j < before.len() implies !gives(#[trigger] before[j], key) by {
            assert(!gives(items[j], key));
        }
        last_annotation_counts(before, i, key);
    }
}

/// Whether `item` is `key=value` for this key, which ends at the first `=`.
pub open spec fn pairs_up(item: Seq<char>, key: Seq<char>, value: Seq<char>) -> bool {
    item == key + seq!['='] + value && !key.contains('=')
}

proof fn lemma_pair_is_split(item: Seq<char>, key: Seq<char>, value: Seq<char>)
    requires
        pairs_up(item, key, value),
    ensures
        text::split_at_equals(item) == Some((key, value)),
{
    item.index_of_first_ensures('=');
    assert(item[key.len() as int] == '=');
    let i = item.index_of_first('=')->0;
    if i < key.len() {
        assert(key[i] == item[i]);
        assert(key.contains('='));
    }
    assert(item.take(i) =~= key);
    assert(item.skip(i + 1) =~= value);
}

/// The annotations that every signature has to carry are those of the items `key=value`: each key
/// has the value of its last item. Without such an item there are no annotations.
pub proof fn annotations_are_those_of_the_items(
    flags: VerificationFlagsView,
    items: Seq<Seq<char>>,
    i: int,
    key: Seq<char>,
    value: Seq<char>,
)
    requires
        flags.verification_annotation == Some(items),
        0 <= i < items.len(),
        pairs_up(items[i], key, value),
        forall|j: int, other: Seq<char>|
            i < j < items.len() ==> !#[trigger] pairs_up(items[j], key, other),
    ensures
        flags.annotations() matches Some(annotations) && annotations.contains_key(key)
            && annotations[key] == value,
{
    lemma_pair_is_split(items[i], key, value);
    assert forall|j: int| i < j < items.len() implies !gives(#[trigger] items[j], key) by {
        text::halves_make_the_item(items[j]);
        if gives(items[j], key) {
            let (_, other) = text::split_at_equals(items[j])->0;
            assert(pairs_up(items[j], key, other));
        }
    }
    last_annotation_counts(items, i, key);
}

/// No annotation comes from anywhere but an item `key=value`.
pub proof fn annotations_come_from_items_alone(flags: VerificationFlagsView, key: Seq<char>)
    requires
        flags.annotations() is Some,
        flags.annotations()->0.contains_key(key),
    ensures
        flags.verification_annotation matches Some(items) && exists|i: int|
            0 <= i < items.len() && #[trigger] pairs_up(
                items[i],
                key,
                flags.annotations()->0[key],
            ),
{
    let items = flags.verification_annotation->0;
    lemma_value_of_some_item(items, key);
}

proof fn lemma_value_of_some_item(items: Seq<Seq<char>>, key: Seq<char>)
    requires
        annotation_pairs(items).contains_key(key),
    ensures
        exists|i: int|
            0 <= i < items.len() && #[trigger] pairs_up(
                items[i],
                key,
                annotation_pairs(items)[key],
            ),
    decreases items.len(),
{
    let before = items.drop_last();
    let value = annotation_pairs(items)[key];
    text::halves_make_the_item(items.last());
    if gives(items.last(), key) {
        assert(pairs_up(items[items.len() - 1], key, value));
    } else {
        lemma_value_of_some_item(before, key);
        let i = choose|i: int|
            0 <= i < before.len() && #[trigger] pairs_up(before[i], key, value);
        assert(pairs_up(items[i], key, value));
    }
}

/// Where no annotation is passed, or none of the form `key=value`, there are none.
pub proof fn no_annotations_without_items(flags: VerificationFlagsView)
    ensures
        flags.verification_annotation is None ==> flags.annotations() is None,
        flags.verification_annotation matches Some(items) && (forall|
            i: int,
            key: Seq<char>,
            value: Seq<char>,
        |
            0 <= i < items.len() ==> !#[trigger] pairs_up(items[i], key, value))
            ==> flags.annotations() is None,
{
    if let Some(items) = flags.verification_annotation {
        if flags.annotations() is Some {
            let pairs = annotation_pairs(items);
            let key = choose|key: Seq<char>| pairs.contains_key(key);
            if !pairs.contains_key(key) {
                assert(pairs.dom() =~= Set::empty());
            }
            annotations_come_from_items_alone(flags, key);
        }
    }
}

/// A certificate email and an OIDC issuer ask for one signature, the first: by that issuer, of just
/// that email.
pub proof fn email_and_issuer_ask_for_their_signature(
    flags: VerificationFlagsView,
    emails: Seq<Seq<char>>,
    issuers: Seq<Seq<char>>,
    keys: Seq<Seq<char>>,
)
    requires
        flags.cert_email == Some(emails),
        flags.cert_oidc_issuer == Some(issuers),
    ensures
        flags.signatures(keys).len() > 0,
        flags.signatures(keys)[0] == (SignatureView::GenericIssuer {
            issuer: issuers.flatten(),
            subject: SubjectView::Equal(emails.flatten()),
            annotations: flags.annotations(),
        }),
{
}

/// A GitHub owner asks for one signature, of that owner and of the repository, if one is passed;
/// it stands behind the one for the issuer, if there is one.
pub proof fn owner_asks_for_its_signature(
    flags: VerificationFlagsView,
    owners: Seq<Seq<char>>,
    keys: Seq<Seq<char>>,
)
    requires
        flags.github_owner == Some(owners),
    ensures
        ({
            let at: int = if flags.cert_email is Some && flags.cert_oidc_issuer is Some {
                1
            } else {
                0
            };
            &&& at < flags.signatures(keys).len()
            &&& flags.signatures(keys)[at] == (SignatureView::GithubAction {
                owner: owners.flatten(),
                repo: if flags.github_repo is Some {
                    Some(flags.github_repo->0.flatten())
                } else {
                    None
                },
                annotations: flags.annotations(),
            })
        }),
{
}

/// The signatures are those for issuer and owner, where these are passed, and then one for each
/// key, in order, of no owner in particular; and no others.
pub proof fn keys_stand_behind_the_others(
    flags: VerificationFlagsView,
    keys: Seq<Seq<char>>,
    i: int,
)
    ensures
        ({
            let issuers: int = if flags.cert_email is Some && flags.cert_oidc_issuer is Some {
                1
            } else {
                0
            };
            let owners: int = if flags.github_owner is Some {
                1
            } else {
                0
            };
            &&& flags.signatures(keys).len() == issuers + owners + keys.len()
            &&& 0 <= i < keys.len() ==> flags.signatures(keys)[issuers + owners + i] == (
            SignatureView::PubKey { owner: None, key: keys[i], annotations: flags.annotations() })
        }),
{
}

/// A configuration asks for all of its signatures and for none of a choice; without signatures it
/// asks for nothing.
pub proof fn all_signatures_are_asked_for(signatures: Seq<SignatureView>)
    ensures
        all_of(signatures).any_of is None,
        signatures.len() > 0 ==> all_of(signatures).all_of == Some(signatures),
        signatures.len() == 0 ==> all_of(signatures).all_of is None,
{
}

/// Which flags do not go together: annotations with nobody to sign, then a repository without its
/// owner, then one of email and issuer without the other. All others do.
pub proof fn flags_that_do_not_fit(flags: VerificationFlagsView)
    ensures
        ({
            let nobody = flags.verification_key is None && flags.cert_email is None
                && flags.cert_oidc_issuer is None && flags.github_owner is None;
            let lonely_repo = flags.github_repo is Some && flags.github_owner is None;
            let half_issuer = flags.cert_email is Some != flags.cert_oidc_issuer is Some;
            &&& (flags.error() == Some(FlagError::AnnotationsWithoutSigner)) == (nobody
                && flags.annotations() is Some)
            &&& (flags.error() == Some(FlagError::RepositoryWithoutOwner)) == (lonely_repo && !(
            nobody && flags.annotations() is Some))
            &&& (flags.error() == Some(FlagError::IncompleteIssuer)) == (half_issuer
                && !lonely_repo)
            &&& flags.unused() == (nobody && flags.annotations() is None && flags.github_repo is None)
            &&& flags.verification_key is Some ==> flags.key_paths() == flags.verification_key->0
            &&& flags.verification_key is None ==> flags.key_paths().len() == 0
        }),
{
}

/// The flags show the values of each flag.
pub proof fn flags_show_their_values(flags: VerificationFlags)
    ensures
        flags@.verification_key == flags.verification_key.deep_view(),
        flags@.verification_annotation == flags.verification_annotation.deep_view(),
        flags@.cert_email == flags.cert_email.deep_view(),
        flags@.cert_oidc_issuer == flags.cert_oidc_issuer.deep_view(),
        flags@.github_owner == flags.github_owner.deep_view(),
        flags@.github_repo == flags.github_repo.deep_view(),
{
}

} // verus!
