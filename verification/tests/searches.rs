use kwctl::arg::{Arg, ArgError, Content};
use kwctl::files::{ConfigFile, PathQueue, KWCTL_VERIFICATION_CONFIG};
use kwctl::flags::FlagError;
use kwctl::fulcio::{
    build_fulcio_and_rekor_data, Certificate, Fetch, FulcioAction, FulcioAndRekorData, FulcioArgs,
    FulcioError, FulcioEvent, FulcioState,
};
use kwctl::remote::{
    remote_server_options, RemoteAction, RemoteArgs, RemoteError, RemoteEvent, RemoteState,
};
use kwctl::signature::{AnyOf, Signature, VerificationConfig};
use kwctl::verification::{
    verification_options, OptionsAction, OptionsEvent, OptionsState, VerificationArgs,
    VerificationError,
};

fn strings(values: &[&str]) -> Vec<String> {
    values.iter().map(|value| value.to_string()).collect()
}

fn arg(id: &str, values: Option<&[&str]>) -> Arg {
    let content = match values {
        Some(values) => Content::Values(strings(values)),
        None => Content::Absent,
    };
    Arg { id: id.to_string(), content }
}

fn verification_args(keys: Option<&[&str]>, config_path: Option<&[&str]>) -> VerificationArgs {
    VerificationArgs {
        verification_key: arg("verification-key", keys),
        verification_annotation: arg("verification-annotation", None),
        cert_email: arg("cert-email", None),
        cert_oidc_issuer: arg("cert-oidc-issuer", None),
        github_owner: arg("github-owner", None),
        github_repo: arg("github-repo", None),
        verification_config_path: arg("verification-config-path", config_path),
    }
}

fn some_config() -> VerificationConfig {
    VerificationConfig {
        all_of: None,
        any_of: Some(AnyOf { minimum_matches: 2, signatures: Vec::new() }),
    }
}

fn feed(state: OptionsState, event: OptionsEvent) -> OptionsState {
    assert!(state.awaits(&event));
    state.advance(event)
}

#[test]
fn keys_are_read_one_after_the_other() {
    let state = verification_options(&verification_args(Some(&["a.pub", "b.pub"]), None));
    assert!(matches!(state.action(), Some(OptionsAction::ReadKey(path)) if path == "a.pub"));
    let state = feed(state, OptionsEvent::KeyRead(Ok("A".to_string())));
    assert!(matches!(state.action(), Some(OptionsAction::ReadKey(path)) if path == "b.pub"));
    assert!(!state.awaits(&OptionsEvent::DefaultConfigProbed(true)));
    let state = feed(state, OptionsEvent::KeyRead(Ok("B".to_string())));
    assert!(state.action().is_none());
    let signatures = match state {
        OptionsState::Done { options: Some(VerificationConfig { all_of: Some(all), any_of: None }) } => all,
        _ => panic!("the flags make a configuration"),
    };
    let keys: Vec<&str> = signatures
        .iter()
        .map(|signature| match signature {
            Signature::PubKey { key, .. } => key.as_str(),
            _ => panic!("only keys were passed"),
        })
        .collect();
    assert_eq!(keys, vec!["A", "B"]);
}

#[test]
fn unreadable_key_stops_the_search() {
    let state = verification_options(&verification_args(Some(&["a.pub", "b.pub"]), Some(&["c"])));
    let state = feed(state, OptionsEvent::KeyRead(Ok("A".to_string())));
    let state = feed(state, OptionsEvent::KeyRead(Err("gone".to_string())));
    match state {
        OptionsState::Failed { error } => {
            assert!(matches!(&error, VerificationError::UnreadableKey { path, .. } if path == "b.pub"));
            assert_eq!(error.message(), "could not read file b.pub: gone");
        }
        _ => panic!("the second key cannot be read"),
    }
}

#[test]
fn keys_and_config_path_exclude_each_other() {
    let state = verification_options(&verification_args(Some(&["a.pub"]), Some(&["config.yml"])));
    assert!(matches!(state.action(), Some(OptionsAction::ReadKey(_))));
    let state = feed(state, OptionsEvent::KeyRead(Ok("A".to_string())));
    match state {
        OptionsState::Failed { error } => {
            assert!(matches!(error, VerificationError::ConflictingConfigPath));
            assert_eq!(
                error.message(),
                "verification-config-path cannot be used in conjunction with other verification flags"
            );
        }
        _ => panic!("both were given"),
    }
}

#[test]
fn flags_that_do_not_fit_fail_at_once() {
    let mut args = verification_args(None, None);
    args.github_repo = arg("github-repo", Some(&["policy"]));
    match verification_options(&args) {
        OptionsState::Failed { error } => {
            assert!(matches!(
                error,
                VerificationError::Flags(FlagError::RepositoryWithoutOwner)
            ));
            assert_eq!(
                error.message(),
                "Intending to verify GitHub actions signature, but the repository owner is missing."
            );
        }
        _ => panic!("the owner is missing"),
    }
}

#[test]
fn named_config_is_read_without_a_probe() {
    let state = verification_options(&verification_args(None, Some(&["config.yml", "other"])));
    assert!(matches!(
        state.action(),
        Some(OptionsAction::ReadConfig(ConfigFile::Given(path))) if path == "config.yml"
    ));
    let state = feed(state, OptionsEvent::ConfigRead(Ok(some_config())));
    assert!(matches!(
        state,
        OptionsState::Done { options: Some(VerificationConfig { any_of: Some(_), .. }) }
    ));
}

#[test]
fn unreadable_config_is_told_as_it_is() {
    let state = verification_options(&verification_args(None, Some(&["config.yml"])));
    match feed(state, OptionsEvent::ConfigRead(Err("not yaml".to_string()))) {
        OptionsState::Failed { error } => assert_eq!(error.message(), "not yaml"),
        _ => panic!("the file cannot be read"),
    }
}

#[test]
fn default_config_is_used_where_it_exists() {
    assert_eq!(KWCTL_VERIFICATION_CONFIG, "verification-config.yml");
    let state = verification_options(&verification_args(None, None));
    assert!(matches!(state.action(), Some(OptionsAction::ProbeDefaultConfig)));
    let state = feed(state, OptionsEvent::DefaultConfigProbed(true));
    assert!(matches!(state.action(), Some(OptionsAction::ReadConfig(ConfigFile::Default))));

    let state = verification_options(&verification_args(None, None));
    let state = feed(state, OptionsEvent::DefaultConfigProbed(false));
    assert!(matches!(state, OptionsState::Done { options: None }));
}

#[test]
fn config_path_without_a_value_falls_back_to_the_default() {
    let state = verification_options(&verification_args(None, Some(&[])));
    assert!(matches!(state.action(), Some(OptionsAction::ProbeDefaultConfig)));
}

type Fulcio = FulcioState<&'static str>;

fn fulcio(certs: Option<&[&str]>, rekor: Option<&[&str]>) -> Fulcio {
    build_fulcio_and_rekor_data(&FulcioArgs {
        fulcio_cert_path: arg("fulcio-cert-path", certs),
        rekor_public_key_path: arg("rekor-public-key-path", rekor),
    })
}

fn tell(state: Fulcio, event: FulcioEvent<&'static str>) -> Fulcio {
    assert!(state.awaits(&event));
    state.advance(event)
}

#[test]
fn custom_data_is_read_file_by_file() {
    let state = fulcio(Some(&["one.pem", "two.pem"]), Some(&["rekor.pub"]));
    assert!(matches!(state.action(), Some(FulcioAction::ReadCert(path)) if path == "one.pem"));
    let state = tell(state, FulcioEvent::CertRead(Ok(vec![1, 2])));
    assert!(matches!(state.action(), Some(FulcioAction::ReadCert(path)) if path == "two.pem"));
    let state = tell(state, FulcioEvent::CertRead(Ok(vec![3])));
    assert!(matches!(state.action(), Some(FulcioAction::ReadRekorKey(path)) if path == "rekor.pub"));
    let state = tell(state, FulcioEvent::RekorKeyRead(Ok("KEY".to_string())));
    assert!(state.action().is_none());
    match state {
        FulcioState::Done {
            data: Some(FulcioAndRekorData::FromCustomData { fulcio_certs, rekor_public_key }),
        } => {
            let certs: Vec<Vec<u8>> =
                fulcio_certs.into_iter().map(|Certificate::Pem(data)| data).collect();
            assert_eq!(certs, vec![vec![1, 2], vec![3]]);
            assert_eq!(rekor_public_key, Some("KEY".to_string()));
        }
        _ => panic!("the data is complete"),
    }
}

#[test]
fn certificate_without_key_is_incomplete() {
    let state = fulcio(Some(&["one.pem"]), None);
    match tell(state, FulcioEvent::CertRead(Ok(vec![1]))) {
        FulcioState::Failed { error } => {
            assert!(matches!(error, FulcioError::Incomplete));
            assert_eq!(
                error.message(),
                "both a fulcio certificate and a rekor public key are required"
            );
        }
        _ => panic!("the key is missing"),
    }
}

#[test]
fn key_without_certificate_is_incomplete() {
    let state = fulcio(None, Some(&["rekor.pub"]));
    assert!(matches!(state.action(), Some(FulcioAction::ReadRekorKey(_))));
    let state = tell(state, FulcioEvent::RekorKeyRead(Ok("KEY".to_string())));
    assert!(matches!(state, FulcioState::Failed { error: FulcioError::Incomplete }));
}

#[test]
fn unreadable_certificate_comes_before_the_missing_key() {
    let state = fulcio(Some(&["one.pem"]), None);
    match tell(state, FulcioEvent::CertRead(Err("no such file".to_string()))) {
        FulcioState::Failed { error } => assert_eq!(error.message(), "no such file"),
        _ => panic!("the file cannot be read"),
    }
}

#[test]
fn repository_is_fetched_into_its_directory() {
    let state = fulcio(None, None);
    assert!(matches!(state.action(), Some(FulcioAction::ProbeCheckout)));
    let state = tell(state, FulcioEvent::CheckoutProbed(false));
    assert!(matches!(state.action(), Some(FulcioAction::CreateCheckout)));
    let state = tell(state, FulcioEvent::CheckoutCreated(Ok(())));
    assert!(matches!(state.action(), Some(FulcioAction::FetchRepository)));
    let state = tell(state, FulcioEvent::RepositoryFetched(Fetch::Fetched("repo")));
    assert!(matches!(
        state,
        FulcioState::Done { data: Some(FulcioAndRekorData::FromTufRepository { repo: "repo" }) }
    ));
}

#[test]
fn repository_that_cannot_be_had_is_no_error() {
    let state = tell(fulcio(None, None), FulcioEvent::CheckoutProbed(true));
    let state =
        tell(state, FulcioEvent::RepositoryFetched(Fetch::Unavailable("offline".to_string())));
    assert!(matches!(state, FulcioState::Done { data: None }));
}

#[test]
fn fetch_that_is_cut_off_is_an_error() {
    let state = tell(fulcio(None, None), FulcioEvent::CheckoutProbed(true));
    let state = tell(state, FulcioEvent::RepositoryFetched(Fetch::CutOff("panic".to_string())));
    assert!(matches!(state, FulcioState::Failed { error: FulcioError::Outside(cause) } if cause == "panic"));
    let state = tell(fulcio(None, None), FulcioEvent::CheckoutProbed(false));
    let state = tell(state, FulcioEvent::CheckoutCreated(Err("denied".to_string())));
    assert!(matches!(state, FulcioState::Failed { error: FulcioError::Outside(cause) } if cause == "denied"));
}

type Remote = RemoteState<u32, u64>;

fn named(id: &str, path: Option<&str>) -> Arg {
    match path {
        Some(path) => arg(id, Some(&[path])),
        None => arg(id, None),
    }
}

fn remote(sources: Option<&str>, docker: Option<&str>) -> Remote {
    remote_server_options(&RemoteArgs {
        sources_path: named("sources-path", sources),
        docker_config_json_path: named("docker-config-json-path", docker),
    })
}

fn pass(state: Remote, event: RemoteEvent<u32, u64>) -> Remote {
    assert!(state.awaits(&event));
    state.advance(event)
}

#[test]
fn named_files_are_read_without_probes() {
    let state = remote(Some("s.yaml"), Some("d.json"));
    assert!(matches!(
        state.action(),
        Some(RemoteAction::ReadSources(ConfigFile::Given(path))) if path == "s.yaml"
    ));
    let state = pass(state, RemoteEvent::SourcesRead(Ok(1)));
    assert!(matches!(
        state.action(),
        Some(RemoteAction::ReadDockerConfig(ConfigFile::Given(path))) if path == "d.json"
    ));
    let state = pass(state, RemoteEvent::DockerConfigRead(Ok(2)));
    assert!(state.action().is_none());
    match state {
        RemoteState::Done { options } => {
            assert_eq!(options.sources, Some(1));
            assert_eq!(options.docker_config, Some(2));
        }
        _ => panic!("both files were read"),
    }
}

#[test]
fn default_files_are_read_where_they_exist() {
    let state = remote(None, None);
    assert!(matches!(state.action(), Some(RemoteAction::ProbeSources)));
    let state = pass(state, RemoteEvent::SourcesProbed(true));
    assert!(matches!(state.action(), Some(RemoteAction::ReadSources(ConfigFile::Default))));
    let state = pass(state, RemoteEvent::SourcesRead(Ok(7)));
    assert!(matches!(state.action(), Some(RemoteAction::LocateHome)));
    let state = pass(state, RemoteEvent::HomeLocated(true));
    assert!(matches!(state.action(), Some(RemoteAction::ProbeDockerConfig)));
    let state = pass(state, RemoteEvent::DockerConfigProbed(true));
    assert!(matches!(state.action(), Some(RemoteAction::ReadDockerConfig(ConfigFile::Default))));
    let state = pass(state, RemoteEvent::DockerConfigRead(Ok(9)));
    assert!(matches!(state, RemoteState::Done { options } if options.sources == Some(7) && options.docker_config == Some(9)));
}

#[test]
fn absent_defaults_leave_nothing() {
    let state = pass(remote(None, None), RemoteEvent::SourcesProbed(false));
    let state = pass(state, RemoteEvent::HomeLocated(false));
    assert!(matches!(state, RemoteState::Done { options } if options.sources.is_none() && options.docker_config.is_none()));
    let state = pass(remote(None, None), RemoteEvent::SourcesProbed(false));
    let state = pass(state, RemoteEvent::HomeLocated(true));
    let state = pass(state, RemoteEvent::DockerConfigProbed(false));
    assert!(matches!(state, RemoteState::Done { options } if options.sources.is_none() && options.docker_config.is_none()));
}

#[test]
fn unreadable_files_stop_the_search() {
    let state = pass(remote(Some("s"), None), RemoteEvent::SourcesRead(Err("bad".to_string())));
    assert!(matches!(state, RemoteState::Failed { error } if error.message() == "bad"));
    let state = pass(remote(Some("s"), Some("d")), RemoteEvent::SourcesRead(Ok(1)));
    let state = pass(state, RemoteEvent::DockerConfigRead(Err("worse".to_string())));
    assert!(matches!(state, RemoteState::Failed { error } if error.message() == "worse"));
}

#[test]
fn path_queue_hands_out_each_path_once() {
    let queue = PathQueue::new(strings(&["a", "b"]));
    assert_eq!(queue.next(), Some(&"a".to_string()));
    let queue = queue.tail();
    assert_eq!(queue.next(), Some(&"b".to_string()));
    assert_eq!(queue.tail().next(), None);
}

#[test]
fn outcomes_come_at_the_end() {
    let state = verification_options(&verification_args(Some(&["a.pub"]), None));
    assert!(state.outcome().is_none());
    let state = verification_options(&verification_args(Some(&["a.pub"]), None));
    let state = feed(state, OptionsEvent::KeyRead(Err("gone".to_string())));
    assert!(matches!(state.outcome(), Some(Err(error)) if error.message() == "could not read file a.pub: gone"));
    let state = verification_options(&verification_args(None, None));
    let state = feed(state, OptionsEvent::DefaultConfigProbed(false));
    assert!(matches!(state.outcome(), Some(Ok(None))));

    assert!(fulcio(None, None).outcome().is_none());
    let state = tell(fulcio(Some(&["one.pem"]), None), FulcioEvent::CertRead(Ok(vec![1])));
    assert!(matches!(
        state.outcome(),
        Some(Err(error)) if error.message() == "both a fulcio certificate and a rekor public key are required"
    ));
    let state = tell(fulcio(None, None), FulcioEvent::CheckoutProbed(true));
    let state = tell(state, FulcioEvent::RepositoryFetched(Fetch::Fetched("repo")));
    assert!(matches!(state.outcome(), Some(Ok(Some(_)))));

    assert!(remote(None, None).outcome().is_none());
    let state = pass(remote(Some("s"), None), RemoteEvent::SourcesRead(Err("bad".to_string())));
    assert!(matches!(state.outcome(), Some(Err(error)) if error.message() == "bad"));
    let state = pass(remote(Some("s"), Some("d")), RemoteEvent::SourcesRead(Ok(1)));
    let state = pass(state, RemoteEvent::DockerConfigRead(Ok(2)));
    assert!(matches!(state.outcome(), Some(Ok(options)) if options.docker_config == Some(2)));
}

fn unknown(id: &str) -> Arg {
    Arg { id: id.to_string(), content: Content::Unknown }
}

fn foreign(id: &str) -> Arg {
    Arg { id: id.to_string(), content: Content::Foreign }
}

#[test]
fn sources_are_read_before_the_docker_argument_counts() {
    let args = || RemoteArgs {
        sources_path: named("sources-path", Some("s")),
        docker_config_json_path: unknown("docker-config-json-path"),
    };
    let state: Remote = remote_server_options(&args());
    let state = pass(state, RemoteEvent::SourcesRead(Err("broken".to_string())));
    assert!(matches!(state, RemoteState::Failed { error: RemoteError::Outside(cause) } if cause == "broken"));
    let state: Remote = remote_server_options(&args());
    let state = pass(state, RemoteEvent::SourcesRead(Ok(1)));
    assert!(matches!(
        state,
        RemoteState::Failed { error: RemoteError::Argument(ArgError::Unreadable(id)) }
            if id == "docker-config-json-path"
    ));
    let state: Remote = remote_server_options(&RemoteArgs {
        sources_path: foreign("sources-path"),
        docker_config_json_path: named("docker-config-json-path", None),
    });
    assert!(matches!(
        state,
        RemoteState::Failed { error } if error.message() == "unreadable argument: sources-path"
    ));
}

#[test]
fn keys_are_read_before_the_config_path_counts() {
    let mut args = verification_args(Some(&["a.pub"]), None);
    args.verification_config_path = unknown("verification-config-path");
    let state = feed(verification_options(&args), OptionsEvent::KeyRead(Err("gone".to_string())));
    assert!(matches!(
        state,
        OptionsState::Failed { error: VerificationError::UnreadableKey { .. } }
    ));
    let state = feed(verification_options(&args), OptionsEvent::KeyRead(Ok("A".to_string())));
    assert!(matches!(
        state,
        OptionsState::Failed { error: VerificationError::Argument(ArgError::Unreadable(id)) }
            if id == "verification-config-path"
    ));
    args.verification_config_path = foreign("verification-config-path");
    let state = feed(verification_options(&args), OptionsEvent::KeyRead(Ok("A".to_string())));
    assert!(matches!(
        state,
        OptionsState::Failed { error: VerificationError::ConflictingConfigPath }
    ));
    args.verification_key = arg("verification-key", None);
    assert!(matches!(
        verification_options(&args),
        OptionsState::Failed { error: VerificationError::Argument(ArgError::Unreadable(_)) }
    ));
    args.cert_email = unknown("cert-email");
    assert!(matches!(
        verification_options(&args),
        OptionsState::Failed { error } if error.message() == "unreadable argument: cert-email"
    ));
}

#[test]
fn certificates_are_read_before_the_key_argument_counts() {
    let args = |certs: Arg| FulcioArgs {
        fulcio_cert_path: certs,
        rekor_public_key_path: unknown("rekor-public-key-path"),
    };
    let given = || args(arg("fulcio-cert-path", Some(&["one.pem"])));
    let state: Fulcio = build_fulcio_and_rekor_data(&given());
    let state = tell(state, FulcioEvent::CertRead(Err("gone".to_string())));
    assert!(matches!(state, FulcioState::Failed { error: FulcioError::Outside(cause) } if cause == "gone"));
    let state: Fulcio = build_fulcio_and_rekor_data(&given());
    let state = tell(state, FulcioEvent::CertRead(Ok(vec![1])));
    assert!(matches!(
        state,
        FulcioState::Failed { error: FulcioError::Argument(ArgError::Unreadable(id)) }
            if id == "rekor-public-key-path"
    ));
    let state: Fulcio = build_fulcio_and_rekor_data(&args(arg("fulcio-cert-path", None)));
    assert!(matches!(
        state,
        FulcioState::Failed { error } if error.message() == "unreadable argument: rekor-public-key-path"
    ));
}

#[test]
fn arguments_answer_what_they_can() {
    let given = arg("id", Some(&["one", "two"]));
    assert!(matches!(given.contains(), Ok(true)));
    assert!(matches!(given.many(), Ok(Some(values)) if values == strings(&["one", "two"])));
    assert!(matches!(given.one(), Ok(Some(value)) if value == "one"));
    assert!(matches!(given.duplicate().required(), Ok(value) if value == "one"));
    let absent = arg("id", None);
    assert!(matches!(absent.contains(), Ok(false)));
    assert!(matches!(absent.many(), Ok(None)));
    assert!(matches!(absent.one(), Ok(None)));
    assert!(matches!(absent.required(), Err(ArgError::Missing(id)) if id == "id"));
    let empty = arg("id", Some(&[]));
    assert!(matches!(empty.contains(), Ok(true)));
    assert!(matches!(empty.one(), Ok(None)));
    assert!(matches!(empty.required(), Err(error) if error.message() == "missing argument: id"));
    assert!(matches!(foreign("id").contains(), Ok(true)));
    assert!(matches!(foreign("id").many(), Err(ArgError::Unreadable(_))));
    assert!(matches!(unknown("id").contains(), Err(ArgError::Unreadable(_))));
    assert!(matches!(unknown("id").one(), Err(error) if error.message() == "unreadable argument: id"));
}
