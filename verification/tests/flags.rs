use kwctl::flags::{
    build_verification_options_from_flags, parse_annotations, FlagError, PendingConfig,
    VerificationFlags,
};
use kwctl::signature::{Annotations, Signature, Subject, VerificationConfig};

fn strings(values: &[&str]) -> Vec<String> {
    values.iter().map(|value| value.to_string()).collect()
}

fn no_flags() -> VerificationFlags {
    VerificationFlags {
        verification_key: None,
        verification_annotation: None,
        cert_email: None,
        cert_oidc_issuer: None,
        github_owner: None,
        github_repo: None,
    }
}

fn pending(flags: &VerificationFlags) -> PendingConfig {
    match build_verification_options_from_flags(flags) {
        Ok(Some(pending)) => pending,
        Ok(None) => panic!("the flags are in use"),
        Err(error) => panic!("{:?}", error),
    }
}

fn error(flags: &VerificationFlags) -> FlagError {
    match build_verification_options_from_flags(flags) {
        Ok(_) => panic!("the flags do not fit together"),
        Err(error) => error,
    }
}

fn all_of(config: VerificationConfig) -> Vec<Signature> {
    assert!(config.any_of.is_none());
    config.all_of.expect("there are signatures")
}

fn value(annotations: &Option<Annotations>, key: &str) -> Option<String> {
    annotations.as_ref().and_then(|table| table.get(key).cloned())
}

#[test]
fn no_flag_gives_no_configuration() {
    assert!(matches!(build_verification_options_from_flags(&no_flags()), Ok(None)));
}

#[test]
fn annotations_that_say_nothing_are_no_flag() {
    let flags = VerificationFlags {
        verification_annotation: Some(strings(&["no-separator", ""])),
        ..no_flags()
    };
    assert!(matches!(build_verification_options_from_flags(&flags), Ok(None)));
}

#[test]
fn annotations_need_a_signer() {
    let flags = VerificationFlags {
        verification_annotation: Some(strings(&["env=prod"])),
        ..no_flags()
    };
    assert_eq!(error(&flags), FlagError::AnnotationsWithoutSigner);
    assert_eq!(
        error(&flags).message(),
        "Intending to verify annotations, but no verification keys, OIDC issuer or GitHub owner were passed"
    );
}

#[test]
fn annotations_without_signer_come_before_a_repository_without_owner() {
    let flags = VerificationFlags {
        verification_annotation: Some(strings(&["env=prod"])),
        github_repo: Some(strings(&["policy"])),
        ..no_flags()
    };
    assert_eq!(error(&flags), FlagError::AnnotationsWithoutSigner);
}

#[test]
fn repository_needs_its_owner() {
    let flags = VerificationFlags {
        github_repo: Some(strings(&["policy"])),
        verification_key: Some(strings(&["a.pub"])),
        ..no_flags()
    };
    assert_eq!(error(&flags), FlagError::RepositoryWithoutOwner);
    assert_eq!(
        error(&flags).message(),
        "Intending to verify GitHub actions signature, but the repository owner is missing."
    );
}

#[test]
fn email_and_issuer_go_together() {
    let only_email =
        VerificationFlags { cert_email: Some(strings(&["a@b.c"])), ..no_flags() };
    let only_issuer =
        VerificationFlags { cert_oidc_issuer: Some(strings(&["https://issuer"])), ..no_flags() };
    assert_eq!(error(&only_email), FlagError::IncompleteIssuer);
    assert_eq!(error(&only_issuer), FlagError::IncompleteIssuer);
    assert_eq!(
        error(&only_issuer).message(),
        "Intending to verify OIDC issuer, but no email or issuer were provided. You must pass the email and OIDC issuer to be validated together "
    );
}

#[test]
fn signatures_come_in_order() {
    let flags = VerificationFlags {
        verification_key: Some(strings(&["one.pub", "two.pub"])),
        verification_annotation: Some(strings(&["env=prod", "env=test", "ignored", "a=b=c"])),
        cert_email: Some(strings(&["a@b.c"])),
        cert_oidc_issuer: Some(strings(&["https://issuer"])),
        github_owner: Some(strings(&["kubewarden"])),
        github_repo: Some(strings(&["policy"])),
    };
    let pending = pending(&flags);
    assert_eq!(pending.next_key_path(), Some(&"one.pub".to_string()));
    let pending = pending.add_key("KEY ONE".to_string());
    assert_eq!(pending.next_key_path(), Some(&"two.pub".to_string()));
    let pending = pending.add_key("KEY TWO".to_string());
    assert_eq!(pending.next_key_path(), None);

    let signatures = all_of(pending.finish());
    assert_eq!(signatures.len(), 4);
    for signature in signatures.iter() {
        let annotations = match signature {
            Signature::PubKey { annotations, .. } => annotations,
            Signature::GenericIssuer { annotations, .. } => annotations,
            Signature::GithubAction { annotations, .. } => annotations,
        };
        assert_eq!(value(annotations, "env"), Some("test".to_string()));
        assert_eq!(value(annotations, "a"), Some("b=c".to_string()));
        assert_eq!(value(annotations, "ignored"), None);
        assert_eq!(annotations.as_ref().unwrap().len(), 2);
    }
    match &signatures[0] {
        Signature::GenericIssuer { issuer, subject: Subject::Equal(subject), .. } => {
            assert_eq!(issuer, "https://issuer");
            assert_eq!(subject, "a@b.c");
        }
        _ => panic!("the issuer comes first"),
    }
    match &signatures[1] {
        Signature::GithubAction { owner, repo, .. } => {
            assert_eq!(owner, "kubewarden");
            assert_eq!(repo.as_deref(), Some("policy"));
        }
        _ => panic!("GitHub comes second"),
    }
    for (i, expected) in ["KEY ONE", "KEY TWO"].iter().enumerate() {
        match &signatures[2 + i] {
            Signature::PubKey { owner, key, .. } => {
                assert_eq!(owner, &None);
                assert_eq!(key, expected);
            }
            _ => panic!("the keys come last"),
        }
    }
}

#[test]
fn repeated_values_are_put_together() {
    let flags = VerificationFlags {
        github_owner: Some(strings(&["kube", "warden"])),
        ..no_flags()
    };
    match &all_of(pending(&flags).finish())[..] {
        [Signature::GithubAction { owner, repo: None, annotations: None }] => {
            assert_eq!(owner, "kubewarden")
        }
        _ => panic!("one signature is asked for"),
    }
}

#[test]
fn empty_list_of_keys_asks_for_nothing() {
    let flags = VerificationFlags { verification_key: Some(Vec::new()), ..no_flags() };
    let config = pending(&flags).finish();
    assert!(config.all_of.is_none());
    assert!(config.any_of.is_none());
}

#[test]
fn annotations_are_split_at_the_first_separator() {
    let annotations = parse_annotations(&strings(&["=empty key", "empty value=", "é=ü=ö"]));
    assert_eq!(value(&annotations, ""), Some("empty key".to_string()));
    assert_eq!(value(&annotations, "empty value"), Some("".to_string()));
    assert_eq!(value(&annotations, "é"), Some("ü=ö".to_string()));
    assert_eq!(annotations.as_ref().unwrap().len(), 3);
    assert_eq!(
        annotations.as_ref().unwrap().entry(1),
        (&"empty value".to_string(), &"".to_string())
    );
    assert!(parse_annotations(&Vec::new()).is_none());
}

#[test]
fn annotation_without_separator_changes_nothing() {
    let with = parse_annotations(&strings(&["a=1", "nothing", "b=2"]));
    let without = parse_annotations(&strings(&["a=1", "b=2"]));
    for key in ["a", "b", "nothing"] {
        assert_eq!(value(&with, key), value(&without, key));
    }
    assert_eq!(with.unwrap().len(), without.unwrap().len());
}
