use kwctl::arg::{Arg, ArgError, Content};
use kwctl::digest::{DigestAction, DigestArgs, DigestEvent, DigestSession, DigestStage};
use kwctl::failure::Failure;
use kwctl::fulcio::{FulcioAndRekorData, FulcioArgs};
use kwctl::inspect::{InspectAction, InspectArgs, InspectEvent, InspectSession, InspectStage};
use kwctl::pull::{PullAction, PullArgs, PullDestination, PullEvent, PullSession, PullStage};
use kwctl::push::{PushAction, PushArgs, PushEvent, PushSession, PushStage};
use kwctl::remote::{RemoteArgs, RemoteOptions};
use kwctl::run::{RunAction, RunArgs, RunEvent, RunSession, RunStage};
use kwctl::scaffold::{
    ManifestAction, ManifestArgs, ManifestEvent, ManifestSession, ManifestStage,
};
use kwctl::settings::{settings_choice, SettingsChoice};
use kwctl::signature::VerificationConfig;
use kwctl::verification::VerificationArgs;
use kwctl::verify::{VerifyAction, VerifyArgs, VerifyEvent, VerifySession, VerifyStage};
use std::path::PathBuf;

type S = u8;
type D = u16;
type R = &'static str;

fn arg(id: &str, value: Option<&str>) -> Arg {
    let content = match value {
        Some(value) => Content::Values(vec![value.to_string()]),
        None => Content::Absent,
    };
    Arg { id: id.to_string(), content }
}

fn empty(id: &str) -> Arg {
    Arg { id: id.to_string(), content: Content::Values(Vec::new()) }
}

fn unknown(id: &str) -> Arg {
    Arg { id: id.to_string(), content: Content::Unknown }
}

fn foreign(id: &str) -> Arg {
    Arg { id: id.to_string(), content: Content::Foreign }
}

fn remote_args() -> RemoteArgs {
    RemoteArgs {
        sources_path: arg("sources-path", Some("sources")),
        docker_config_json_path: arg("docker-config-json-path", None),
    }
}

fn verification_args() -> VerificationArgs {
    VerificationArgs {
        verification_key: arg("verification-key", Some("key")),
        verification_annotation: arg("verification-annotation", None),
        cert_email: arg("cert-email", None),
        cert_oidc_issuer: arg("cert-oidc-issuer", None),
        github_owner: arg("github-owner", None),
        github_repo: arg("github-repo", None),
        verification_config_path: arg("verification-config-path", None),
    }
}

fn fulcio_args() -> FulcioArgs {
    FulcioArgs {
        fulcio_cert_path: arg("fulcio-cert-path", None),
        rekor_public_key_path: arg("rekor-public-key-path", None),
    }
}

/// The arguments for a file and for a text that make this choice.
fn settings_args(settings: SettingsChoice) -> (Arg, Arg) {
    let (path, json) = match &settings {
        SettingsChoice::Absent => (None, None),
        SettingsChoice::File(path) => (Some(path.as_str()), None),
        SettingsChoice::Inline(json) => (None, Some(json.as_str())),
        SettingsChoice::Conflict => (Some("path"), Some("json")),
    };
    (arg("settings-path", path), arg("settings-json", json))
}

fn remote_options() -> RemoteOptions<S, D> {
    RemoteOptions { sources: Some(1), docker_config: Some(2) }
}

fn config() -> VerificationConfig {
    VerificationConfig { all_of: None, any_of: None }
}

fn repository(repo: R) -> Option<FulcioAndRekorData<R>> {
    Some(FulcioAndRekorData::FromTufRepository { repo })
}

fn is_repository(data: &Option<FulcioAndRekorData<R>>, name: R) -> bool {
    matches!(data, Some(FulcioAndRekorData::FromTufRepository { repo }) if *repo == name)
}

fn text(value: &str) -> String {
    value.to_string()
}

fn pull(output_path: Option<&str>) -> PullSession<S, D, R, i8> {
    PullSession::new(PullArgs {
        uri: text("registry://policy"),
        output_path: output_path.map(text),
        remote: remote_args(),
        verification: verification_args(),
        fulcio: fulcio_args(),
    })
}

fn pulls(
    session: PullSession<S, D, R, i8>,
    events: Vec<PullEvent<S, D, R, i8>>,
) -> PullSession<S, D, R, i8> {
    events.into_iter().fold(session, |session, event| {
        assert!(session.awaits(&event));
        session.advance(event)
    })
}

#[test]
fn verified_pull_goes_through_all_stages() {
    let session = pull(None);
    assert!(matches!(session.action(), Some(PullAction::RemoteOptions(args)) if matches!(args.sources_path.one(), Ok(Some(path)) if path == "sources")));
    let session = pulls(session, vec![PullEvent::RemoteOptions(Ok(remote_options()))]);
    assert!(matches!(session.action(), Some(PullAction::VerificationOptions(_))));
    assert!(!session.awaits(&PullEvent::Pulled(Ok(1))));
    let session = pulls(session, vec![PullEvent::VerificationOptions(Ok(Some(config())))]);
    assert!(matches!(session.action(), Some(PullAction::FulcioAndRekorData(_))));
    let session = pulls(session, vec![PullEvent::FulcioAndRekorData(Ok(repository("before")))]);
    match session.action() {
        Some(PullAction::Verify { uri, remote, fulcio, .. }) => {
            assert_eq!(uri, "registry://policy");
            assert_eq!(remote.sources, Some(1));
            assert_eq!(remote.docker_config, Some(2));
            assert!(is_repository(fulcio, "before"));
        }
        _ => panic!("the policy is verified first"),
    }
    let session = pulls(session, vec![PullEvent::Verified(Ok(text("sha256:1")))]);
    assert!(matches!(
        session.action(),
        Some(PullAction::Pull { destination: PullDestination::MainStore, .. })
    ));
    let session = pulls(session, vec![PullEvent::Pulled(Ok(-3))]);
    assert!(matches!(session.action(), Some(PullAction::FulcioAndRekorData(_))));
    let session = pulls(session, vec![PullEvent::FulcioAndRekorData(Ok(repository("after")))]);
    match session.action() {
        Some(PullAction::VerifyLocalChecksum { policy, digest, fulcio, .. }) => {
            assert_eq!(*policy, -3);
            assert_eq!(digest, "sha256:1");
            assert!(is_repository(fulcio, "after"));
        }
        _ => panic!("the file is checked last"),
    }
    let session = pulls(session, vec![PullEvent::LocalChecksumVerified(Ok(()))]);
    assert!(matches!(session.stage, PullStage::Done));
    assert!(session.action().is_none());
}

#[test]
fn pull_without_options_only_pulls() {
    let session = pulls(
        pull(Some("policy.wasm")),
        vec![PullEvent::RemoteOptions(Ok(remote_options())), PullEvent::VerificationOptions(Ok(None))],
    );
    match session.action() {
        Some(PullAction::Pull { destination: PullDestination::LocalFile(path), .. }) => {
            assert_eq!(path, "policy.wasm")
        }
        _ => panic!("nothing is verified"),
    }
    let session = pulls(session, vec![PullEvent::Pulled(Ok(0))]);
    assert!(matches!(session.stage, PullStage::Done));
}

#[test]
fn policy_that_is_not_valid_is_not_pulled() {
    let session = pulls(
        pull(None),
        vec![
            PullEvent::RemoteOptions(Ok(remote_options())),
            PullEvent::VerificationOptions(Ok(Some(config()))),
            PullEvent::FulcioAndRekorData(Ok(None)),
            PullEvent::Verified(Err(text("no signature"))),
        ],
    );
    match session.stage {
        PullStage::Failed { failure } => assert_eq!(
            failure.message(),
            "Policy registry://policy cannot be validated\nno signature"
        ),
        _ => panic!("the policy is not valid"),
    }
}

#[test]
fn pull_stops_at_each_failure() {
    let good = || {
        vec![
            PullEvent::RemoteOptions(Ok(remote_options())),
            PullEvent::VerificationOptions(Ok(Some(config()))),
            PullEvent::FulcioAndRekorData(Ok(None)),
            PullEvent::Verified(Ok(text("digest"))),
            PullEvent::Pulled(Ok(1)),
            PullEvent::FulcioAndRekorData(Ok(None)),
            PullEvent::LocalChecksumVerified(Ok(())),
        ]
    };
    let bad = || {
        vec![
            PullEvent::RemoteOptions(Err(text("why"))),
            PullEvent::VerificationOptions(Err(text("why"))),
            PullEvent::FulcioAndRekorData(Err(text("why"))),
            PullEvent::Verified(Err(text("why"))),
            PullEvent::Pulled(Err(text("why"))),
            PullEvent::FulcioAndRekorData(Err(text("why"))),
            PullEvent::LocalChecksumVerified(Err(text("why"))),
        ]
    };
    for i in 0..7 {
        let mut events = good();
        events.truncate(i);
        events.push(bad().remove(i));
        let session = pulls(pull(None), events);
        assert!(session.action().is_none());
        match session.stage {
            PullStage::Failed { failure: Failure::Outside(cause) } => assert_eq!(cause, "why"),
            PullStage::Failed { failure: Failure::NotValidated { .. } } => assert_eq!(i, 3),
            _ => panic!("the pull stops"),
        }
    }
}

fn verify() -> VerifySession<S, D, R> {
    VerifySession::new(VerifyArgs {
        uri: text("registry://policy"),
        remote: remote_args(),
        verification: verification_args(),
        fulcio: fulcio_args(),
    })
}

fn verifies(session: VerifySession<S, D, R>, event: VerifyEvent<S, D, R>) -> VerifySession<S, D, R> {
    assert!(session.awaits(&event));
    session.advance(event)
}

#[test]
fn verification_without_options_fails() {
    let session = verifies(verify(), VerifyEvent::RemoteOptions(Ok(remote_options())));
    let session = verifies(session, VerifyEvent::VerificationOptions(Ok(None)));
    match session.stage {
        VerifyStage::Failed { failure } => {
            assert_eq!(failure.message(), "could not retrieve sigstore options")
        }
        _ => panic!("there is nothing to verify"),
    }
}

#[test]
fn verification_ends_with_its_answer() {
    let at_verify = || {
        let session = verify();
        assert!(matches!(session.action(), Some(VerifyAction::RemoteOptions(_))));
        let session = verifies(session, VerifyEvent::RemoteOptions(Ok(remote_options())));
        assert!(matches!(session.action(), Some(VerifyAction::VerificationOptions(_))));
        let session = verifies(session, VerifyEvent::VerificationOptions(Ok(Some(config()))));
        assert!(matches!(session.action(), Some(VerifyAction::FulcioAndRekorData(_))));
        let session = verifies(session, VerifyEvent::FulcioAndRekorData(Ok(repository("tuf"))));
        assert!(matches!(
            session.action(),
            Some(VerifyAction::Verify { uri, remote, fulcio, .. })
                if uri == "registry://policy" && remote.sources == Some(1) && is_repository(fulcio, "tuf")
        ));
        session
    };
    let session = verifies(at_verify(), VerifyEvent::Verified(Ok(text("digest"))));
    assert!(matches!(session.stage, VerifyStage::Done));
    let session = verifies(at_verify(), VerifyEvent::Verified(Err(text("bad"))));
    assert!(matches!(
        session.stage,
        VerifyStage::Failed { failure: Failure::NotValidated { uri, cause } }
            if uri == "registry://policy" && cause == "bad"
    ));
}

fn run_args(request_path: &str, settings: SettingsChoice, mode: Option<&str>) -> RunArgs {
    let (settings_path, settings_json) = settings_args(settings);
    RunArgs {
        uri: text("registry://policy"),
        request_path: text(request_path),
        settings_path,
        settings_json,
        remote: remote_args(),
        execution_mode: arg("execution-mode", mode),
        verification: verification_args(),
        fulcio: fulcio_args(),
        disable_wasmtime_cache: empty("disable-wasmtime-cache"),
    }
}

fn run(request_path: &str, settings: SettingsChoice, mode: Option<&str>) -> RunSession<S, D, R, char> {
    RunSession::new(run_args(request_path, settings, mode))
}

fn runs(
    session: RunSession<S, D, R, char>,
    events: Vec<RunEvent<S, D, R, char>>,
) -> RunSession<S, D, R, char> {
    events.into_iter().fold(session, |session, event| {
        assert!(session.awaits(&event));
        session.advance(event)
    })
}

fn run_failure(session: RunSession<S, D, R, char>) -> String {
    assert!(session.action().is_none());
    match session.stage {
        RunStage::Failed { failure } => failure.message(),
        _ => panic!("the run stops"),
    }
}

#[test]
fn verified_run_goes_through_all_stages() {
    let session = run("-", SettingsChoice::File(text("settings.json")), Some("wasi"));
    assert!(matches!(session.action(), Some(RunAction::ReadRequestFromStdin)));
    let session = runs(session, vec![RunEvent::RequestRead(Ok(text("request")))]);
    assert!(matches!(session.action(), Some(RunAction::ReadSettings(path)) if path == "settings.json"));
    let session = runs(session, vec![RunEvent::SettingsRead(Ok(text("settings")))]);
    assert!(matches!(session.action(), Some(RunAction::RemoteOptions(_))));
    let session = runs(session, vec![RunEvent::RemoteOptions(Ok(remote_options()))]);
    assert!(matches!(session.action(), Some(RunAction::ExecutionMode(name)) if name == "wasi"));
    let session = runs(session, vec![RunEvent::ExecutionMode(Ok('w'))]);
    assert!(matches!(session.action(), Some(RunAction::VerificationOptions(_))));
    let session = runs(session, vec![RunEvent::VerificationOptions(Ok(Some(config())))]);
    assert!(matches!(session.action(), Some(RunAction::FulcioAndRekorData(_))));
    let session = runs(session, vec![RunEvent::FulcioAndRekorData(Ok(repository("tuf")))]);
    assert!(matches!(session.action(), Some(RunAction::Verify { uri, .. }) if uri == "registry://policy"));
    let session = runs(session, vec![RunEvent::Verified(Ok(text("sha256:1")))]);
    match session.action() {
        Some(RunAction::PullAndRun { uri, input, digest, fulcio, enable_wasmtime_cache }) => {
            assert_eq!(uri, "registry://policy");
            assert_eq!(input.request, "request");
            assert_eq!(input.settings.as_deref(), Some("settings"));
            assert_eq!(input.remote.docker_config, Some(2));
            assert_eq!(input.execution_mode, Some('w'));
            assert_eq!(digest.as_deref(), Some("sha256:1"));
            assert!(is_repository(fulcio, "tuf"));
            assert!(!enable_wasmtime_cache);
        }
        _ => panic!("the policy is run last"),
    }
    let session = runs(session, vec![RunEvent::PulledAndRun(Ok(()))]);
    assert!(matches!(session.stage, RunStage::Done));
}

#[test]
fn run_without_options_still_asks_for_fulcio_data() {
    let session = run("request.json", SettingsChoice::Inline(text("{}")), None);
    assert!(matches!(session.action(), Some(RunAction::ReadRequestFile(path)) if path == "request.json"));
    let session = runs(
        session,
        vec![
            RunEvent::RequestRead(Ok(text("request"))),
            RunEvent::RemoteOptions(Ok(remote_options())),
            RunEvent::VerificationOptions(Ok(None)),
        ],
    );
    assert!(matches!(session.action(), Some(RunAction::FulcioAndRekorData(_))));
    let session = runs(session, vec![RunEvent::FulcioAndRekorData(Ok(None))]);
    match session.action() {
        Some(RunAction::PullAndRun { input, digest, fulcio, .. }) => {
            assert_eq!(input.settings.as_deref(), Some("{}"));
            assert_eq!(input.execution_mode, None);
            assert_eq!(digest, &None);
            assert!(fulcio.is_none());
        }
        _ => panic!("nothing is verified"),
    }
}

#[test]
fn run_tells_what_could_not_be_read() {
    let session = run("-", SettingsChoice::Absent, None);
    let session = runs(session, vec![RunEvent::RequestRead(Err(text("closed")))]);
    assert_eq!(run_failure(session), "Error reading request from stdin: closed");

    let session = run("request.json", SettingsChoice::Absent, None);
    let session = runs(session, vec![RunEvent::RequestRead(Err(text("gone")))]);
    assert_eq!(run_failure(session), "Error opening request file request.json; gone");

    let session = run("-", SettingsChoice::File(text("s.json")), None);
    let session = runs(
        session,
        vec![RunEvent::RequestRead(Ok(text(""))), RunEvent::SettingsRead(Err(text("gone")))],
    );
    assert_eq!(run_failure(session), "Error reading settings from s.json: gone");

    let session = run("-", SettingsChoice::Absent, None);
    let session = runs(
        session,
        vec![RunEvent::RequestRead(Ok(text(""))), RunEvent::RemoteOptions(Err(text("bad yaml")))],
    );
    assert_eq!(run_failure(session), "Error getting remote server options: bad yaml");

    let session = run("-", SettingsChoice::Absent, Some("unknown"));
    let session = runs(
        session,
        vec![
            RunEvent::RequestRead(Ok(text(""))),
            RunEvent::RemoteOptions(Ok(remote_options())),
            RunEvent::ExecutionMode(Err(text("no such mode"))),
        ],
    );
    assert_eq!(run_failure(session), "no such mode");
}

#[test]
fn settings_given_twice_stop_a_run_behind_its_request() {
    let session = run("-", SettingsChoice::Conflict, None);
    assert!(matches!(session.action(), Some(RunAction::ReadRequestFromStdin)));
    let session = runs(session, vec![RunEvent::RequestRead(Ok(text("request")))]);
    assert_eq!(
        run_failure(session),
        "'settings-path' and 'settings-json' cannot be used at the same time"
    );
}

#[test]
fn settings_come_from_one_place() {
    let path = || arg("settings-path", Some("one"));
    let json = || arg("settings-json", Some("two"));
    let no_path = || arg("settings-path", None);
    let no_json = || arg("settings-json", None);
    assert!(matches!(settings_choice(&no_path(), &no_json()), Ok(SettingsChoice::Absent)));
    assert!(matches!(settings_choice(&path(), &no_json()), Ok(SettingsChoice::File(path)) if path == "one"));
    assert!(matches!(settings_choice(&no_path(), &json()), Ok(SettingsChoice::Inline(json)) if json == "two"));
    assert!(matches!(settings_choice(&path(), &json()), Ok(SettingsChoice::Conflict)));
    assert!(matches!(settings_choice(&path(), &empty("settings-json")), Ok(SettingsChoice::Conflict)));
    assert!(matches!(settings_choice(&foreign("settings-path"), &json()), Ok(SettingsChoice::Conflict)));
    assert!(matches!(settings_choice(&empty("settings-path"), &no_json()), Ok(SettingsChoice::Absent)));
    assert!(matches!(settings_choice(&no_path(), &empty("settings-json")), Err(ArgError::Missing(id)) if id == "settings-json"));
    assert!(matches!(settings_choice(&foreign("settings-path"), &no_json()), Err(ArgError::Unreadable(id)) if id == "settings-path"));
    assert!(matches!(settings_choice(&path(), &unknown("settings-json")), Err(ArgError::Unreadable(id)) if id == "settings-json"));
}

fn push_args(uri: &str, output: Option<&str>) -> PushArgs {
    PushArgs {
        policy: arg("policy", Some("policy.wasm")),
        uri: arg("uri", Some(uri)),
        remote: remote_args(),
        force: empty("force"),
        output: arg("output", output),
    }
}

fn push(uri: &str, output: Option<&str>) -> PushSession<S, D, PathBuf> {
    PushSession::new(push_args(uri, output))
}

fn pushes(session: PushSession<S, D, PathBuf>, events: Vec<PushEvent<S, D, PathBuf>>) -> PushSession<S, D, PathBuf> {
    events.into_iter().fold(session, |session, event| {
        assert!(session.awaits(&event));
        session.advance(event)
    })
}

#[test]
fn push_goes_to_a_registry() {
    let session = push("ghcr.io/policy:v1", None);
    assert!(matches!(session.action(), Some(PushAction::RemoteOptions(_))));
    let session = pushes(session, vec![PushEvent::RemoteOptions(Ok(remote_options()))]);
    assert!(matches!(session.action(), Some(PushAction::MapPathToUri(path)) if path == "policy.wasm"));
    let session = pushes(session, vec![PushEvent::PathMapped(Ok(text("file:///policy.wasm")))]);
    assert!(matches!(session.action(), Some(PushAction::WasmPath(uri)) if uri == "file:///policy.wasm"));
    let session = pushes(session, vec![PushEvent::WasmPath(Ok(PathBuf::from("/policy.wasm")))]);
    match session.action() {
        Some(PushAction::Push { wasm_path, uri, remote, force }) => {
            assert_eq!(wasm_path, &PathBuf::from("/policy.wasm"));
            assert_eq!(uri, "registry://ghcr.io/policy:v1");
            assert_eq!(remote.sources, Some(1));
            assert!(force);
        }
        _ => panic!("the file is pushed"),
    }
    let session = pushes(session, vec![PushEvent::Pushed(Ok(text("ghcr.io/policy@sha256:1")))]);
    match session.action() {
        Some(PushAction::Print(line)) => {
            assert_eq!(line, "Policy successfully pushed: ghcr.io/policy@sha256:1\n")
        }
        _ => panic!("the outcome is told"),
    }
    let session = pushes(session, vec![PushEvent::Printed(Ok(()))]);
    assert!(matches!(session.stage, PushStage::Done));
}

#[test]
fn push_can_be_told_as_json() {
    let session = pushes(
        push("registry://ghcr.io/policy", Some("json")),
        vec![
            PushEvent::RemoteOptions(Ok(remote_options())),
            PushEvent::PathMapped(Ok(text("file:///policy.wasm"))),
            PushEvent::WasmPath(Ok(PathBuf::from("/policy.wasm"))),
            PushEvent::Pushed(Ok(text("ghcr.io/policy@sha256:1"))),
        ],
    );
    match session.action() {
        Some(PushAction::Print(json)) => {
            assert_eq!(json, "{\"immutable_ref\":\"ghcr.io/policy@sha256:1\"}")
        }
        _ => panic!("the outcome is told"),
    }
    let session = pushes(session, vec![PushEvent::Printed(Err(text("closed")))]);
    assert!(matches!(session.stage, PushStage::Failed { failure: Failure::Outside(cause) } if cause == "closed"));
}

#[test]
fn inspection_asks_for_the_output_type_first() {
    let session: InspectSession<S, D, bool> = InspectSession::new(InspectArgs {
        uri: text("registry://policy"),
        output: Some(text("yaml")),
        remote: remote_args(),
    });
    assert!(matches!(session.action(), Some(InspectAction::OutputType(Some(name))) if name == "yaml"));
    let event = InspectEvent::OutputType(Ok(true));
    assert!(session.awaits(&event));
    let session = session.advance(event);
    assert!(matches!(session.action(), Some(InspectAction::RemoteOptions(_))));
    let session = session.advance(InspectEvent::RemoteOptions(Ok(remote_options())));
    assert!(matches!(
        session.action(),
        Some(InspectAction::Inspect { uri, output: true, remote }) if uri == "registry://policy" && remote.sources == Some(1)
    ));
    let session = session.advance(InspectEvent::Inspected(Ok(())));
    assert!(matches!(session.stage, InspectStage::Done));
}

#[test]
fn unknown_output_type_stops_an_inspection() {
    let session: InspectSession<S, D, bool> = InspectSession::new(InspectArgs {
        uri: text("registry://policy"),
        output: Some(text("xml")),
        remote: remote_args(),
    });
    let session = session.advance(InspectEvent::OutputType(Err(text("Invalid output type"))));
    assert!(matches!(session.stage, InspectStage::Failed { failure } if failure.message() == "Invalid output type"));
}

#[test]
fn digest_is_told_behind_the_uri() {
    let session: DigestSession<S, D> =
        DigestSession::new(DigestArgs { uri: text("registry://policy:v1"), remote: remote_args() });
    assert!(matches!(session.action(), Some(DigestAction::RemoteOptions(_))));
    let session = session.advance(DigestEvent::RemoteOptions(Ok(remote_options())));
    assert!(matches!(
        session.action(),
        Some(DigestAction::ManifestDigest { uri, remote }) if uri == "registry://policy:v1" && remote.sources == Some(1)
    ));
    let session = session.advance(DigestEvent::ManifestDigest(Ok(text("sha256:1"))));
    assert!(matches!(session.action(), Some(DigestAction::Print(line)) if line == "registry://policy:v1@sha256:1\n"));
    assert!(session.awaits(&DigestEvent::Printed));
    let session = session.advance(DigestEvent::Printed);
    assert!(matches!(session.stage, DigestStage::Done));
}

fn manifest_args(settings: SettingsChoice) -> ManifestArgs {
    let (settings_path, settings_json) = settings_args(settings);
    ManifestArgs {
        uri: text("registry://policy"),
        resource_type: text("ClusterAdmissionPolicy"),
        settings_path,
        settings_json,
        title: arg("title", Some("title")),
    }
}

fn manifest(settings: SettingsChoice) -> ManifestSession {
    ManifestSession::new(manifest_args(settings))
}

#[test]
fn manifest_is_written_with_its_settings() {
    let session = manifest(SettingsChoice::File(text("s.yml")));
    assert!(matches!(session.action(), Some(ManifestAction::ReadSettings(path)) if path == "s.yml"));
    let event = ManifestEvent::SettingsRead(Ok(text("a: 1")));
    assert!(session.awaits(&event));
    let session = session.advance(event);
    match session.action() {
        Some(ManifestAction::Manifest { uri, resource_type, settings, title }) => {
            assert_eq!(uri, "registry://policy");
            assert_eq!(resource_type, "ClusterAdmissionPolicy");
            assert_eq!(settings.as_deref(), Some("a: 1"));
            assert_eq!(title.as_deref(), Some("title"));
        }
        _ => panic!("the manifest is written"),
    }
    let session = session.advance(ManifestEvent::Written(Ok(())));
    assert!(matches!(session.stage, ManifestStage::Done));
}

#[test]
fn manifest_stops_where_its_settings_are_bad() {
    let session = manifest(SettingsChoice::Conflict);
    assert!(session.action().is_none());
    assert!(matches!(
        session.stage,
        ManifestStage::Failed { failure: Failure::ConflictingSettings }
    ));
    let session = manifest(SettingsChoice::File(text("s.yml")));
    let session = session.advance(ManifestEvent::SettingsRead(Err(text("gone"))));
    assert!(matches!(session.stage, ManifestStage::Failed { failure } if failure.message() == "Error reading settings from s.yml: gone"));
    let session = manifest(SettingsChoice::Inline(text("{}")));
    assert!(matches!(session.action(), Some(ManifestAction::Manifest { settings: Some(json), .. }) if json == "{}"));
    let session = manifest(SettingsChoice::Absent);
    assert!(matches!(session.action(), Some(ManifestAction::Manifest { settings: None, .. })));
}

#[test]
fn run_stops_at_each_later_failure() {
    let good = || {
        vec![
            RunEvent::RequestRead(Ok(text("request"))),
            RunEvent::RemoteOptions(Ok(remote_options())),
            RunEvent::VerificationOptions(Ok(Some(config()))),
            RunEvent::FulcioAndRekorData(Ok(None)),
            RunEvent::Verified(Ok(text("digest"))),
        ]
    };
    let bad = vec![
        (2, RunEvent::VerificationOptions(Err(text("why"))), "why"),
        (3, RunEvent::FulcioAndRekorData(Err(text("why"))), "why"),
        (
            4,
            RunEvent::Verified(Err(text("why"))),
            "Policy registry://policy cannot be validated\nwhy",
        ),
        (5, RunEvent::PulledAndRun(Err(text("why"))), "why"),
    ];
    for (i, event, message) in bad {
        let mut events = good();
        events.truncate(i);
        events.push(event);
        assert_eq!(run_failure(runs(run("-", SettingsChoice::Absent, None), events)), message);
    }
}

#[test]
fn push_stops_at_each_failure() {
    let good = || {
        vec![
            PushEvent::RemoteOptions(Ok(remote_options())),
            PushEvent::PathMapped(Ok(text("file:///policy.wasm"))),
            PushEvent::WasmPath(Ok(PathBuf::from("/policy.wasm"))),
        ]
    };
    let bad = vec![
        PushEvent::RemoteOptions(Err(text("why"))),
        PushEvent::PathMapped(Err(text("why"))),
        PushEvent::WasmPath(Err(text("why"))),
        PushEvent::Pushed(Err(text("why"))),
    ];
    for (i, event) in bad.into_iter().enumerate() {
        let mut events = good();
        events.truncate(i);
        events.push(event);
        let session = pushes(push("uri", None), events);
        assert!(session.action().is_none());
        assert!(matches!(session.stage, PushStage::Failed { failure } if failure.message() == "why"));
    }
}

#[test]
fn digest_and_inspection_stop_at_each_failure() {
    let digest = || -> DigestSession<S, D> {
        DigestSession::new(DigestArgs { uri: text("uri"), remote: remote_args() })
    };
    let session = digest().advance(DigestEvent::RemoteOptions(Err(text("why"))));
    assert!(matches!(session.stage, DigestStage::Failed { failure } if failure.message() == "why"));
    let session = digest()
        .advance(DigestEvent::RemoteOptions(Ok(remote_options())))
        .advance(DigestEvent::ManifestDigest(Err(text("why"))));
    assert!(matches!(session.stage, DigestStage::Failed { failure } if failure.message() == "why"));

    let inspection = || -> InspectSession<S, D, bool> {
        InspectSession::new(InspectArgs { uri: text("uri"), output: None, remote: remote_args() })
            .advance(InspectEvent::OutputType(Ok(false)))
    };
    let session = inspection().advance(InspectEvent::RemoteOptions(Err(text("why"))));
    assert!(matches!(session.stage, InspectStage::Failed { failure } if failure.message() == "why"));
    let session = inspection()
        .advance(InspectEvent::RemoteOptions(Ok(remote_options())))
        .advance(InspectEvent::Inspected(Err(text("why"))));
    assert!(matches!(session.stage, InspectStage::Failed { failure } if failure.message() == "why"));
}

#[test]
fn verification_and_manifest_stop_at_each_failure() {
    let session = verifies(verify(), VerifyEvent::RemoteOptions(Err(text("why"))));
    assert!(matches!(session.stage, VerifyStage::Failed { failure } if failure.message() == "why"));
    let session = verifies(verify(), VerifyEvent::RemoteOptions(Ok(remote_options())));
    let session = verifies(session, VerifyEvent::VerificationOptions(Err(text("why"))));
    assert!(matches!(session.stage, VerifyStage::Failed { failure } if failure.message() == "why"));
    let session = verifies(verify(), VerifyEvent::RemoteOptions(Ok(remote_options())));
    let session = verifies(session, VerifyEvent::VerificationOptions(Ok(Some(config()))));
    let session = verifies(session, VerifyEvent::FulcioAndRekorData(Err(text("why"))));
    assert!(matches!(session.stage, VerifyStage::Failed { failure } if failure.message() == "why"));

    let session = manifest(SettingsChoice::Absent);
    let session = session.advance(ManifestEvent::Written(Err(text("why"))));
    assert!(matches!(session.stage, ManifestStage::Failed { failure } if failure.message() == "why"));
}

#[test]
fn push_needs_its_arguments_one_after_the_other() {
    let stopped = |args: PushArgs, events| match pushes(PushSession::new(args), events).stage {
        PushStage::Failed { failure } => failure.message(),
        _ => panic!("the push stops"),
    };
    let found = || {
        vec![
            PushEvent::RemoteOptions(Ok(remote_options())),
            PushEvent::PathMapped(Ok(text("file:///policy.wasm"))),
            PushEvent::WasmPath(Ok(PathBuf::from("/policy.wasm"))),
        ]
    };
    let without_policy = || PushArgs { policy: arg("policy", None), ..push_args("uri", None) };
    assert_eq!(
        stopped(without_policy(), vec![PushEvent::RemoteOptions(Err(text("bad sources")))]),
        "bad sources"
    );
    assert_eq!(
        stopped(without_policy(), vec![PushEvent::RemoteOptions(Ok(remote_options()))]),
        "missing argument: policy"
    );
    let without_uri = || PushArgs { uri: arg("uri", None), ..push_args("uri", None) };
    let mut events = found();
    events.truncate(1);
    events.push(PushEvent::PathMapped(Err(text("no such path"))));
    assert_eq!(stopped(without_uri(), events), "no such path");
    assert_eq!(stopped(without_uri(), found()), "missing argument: uri");
    let args = PushArgs { force: unknown("force"), ..push_args("uri", None) };
    assert_eq!(stopped(args, found()), "unreadable argument: force");
    let args = || PushArgs { output: unknown("output"), ..push_args("uri", None) };
    let mut events = found();
    events.push(PushEvent::Pushed(Err(text("refused"))));
    assert_eq!(stopped(args(), events), "refused");
    let mut events = found();
    events.push(PushEvent::Pushed(Ok(text("ref"))));
    assert_eq!(stopped(args(), events), "unreadable argument: output");
    let args = PushArgs { force: arg("force", None), ..push_args("uri", None) };
    let session = pushes(PushSession::new(args), found());
    assert!(matches!(session.action(), Some(PushAction::Push { force: false, .. })));
}

#[test]
fn run_needs_its_arguments_one_after_the_other() {
    let stopped = |args: RunArgs, events| run_failure(runs(RunSession::new(args), events));
    let args = || RunArgs {
        settings_path: unknown("settings-path"),
        ..run_args("-", SettingsChoice::Absent, None)
    };
    assert_eq!(
        stopped(args(), vec![RunEvent::RequestRead(Err(text("closed")))]),
        "Error reading request from stdin: closed"
    );
    assert_eq!(
        stopped(args(), vec![RunEvent::RequestRead(Ok(text("request")))]),
        "unreadable argument: settings-path"
    );
    let args = RunArgs {
        settings_json: empty("settings-json"),
        ..run_args("-", SettingsChoice::Absent, None)
    };
    assert_eq!(
        stopped(args, vec![RunEvent::RequestRead(Ok(text("request")))]),
        "missing argument: settings-json"
    );
    let args = || RunArgs {
        execution_mode: foreign("execution-mode"),
        ..run_args("-", SettingsChoice::Absent, None)
    };
    let read = || RunEvent::RequestRead(Ok(text("request")));
    assert_eq!(
        stopped(args(), vec![read(), RunEvent::RemoteOptions(Err(text("bad")))]),
        "Error getting remote server options: bad"
    );
    assert_eq!(
        stopped(args(), vec![read(), RunEvent::RemoteOptions(Ok(remote_options()))]),
        "unreadable argument: execution-mode"
    );
    let args = || RunArgs {
        disable_wasmtime_cache: unknown("disable-wasmtime-cache"),
        ..run_args("-", SettingsChoice::Absent, None)
    };
    let until_verified = |verified| {
        vec![
            read(),
            RunEvent::RemoteOptions(Ok(remote_options())),
            RunEvent::VerificationOptions(Ok(Some(config()))),
            RunEvent::FulcioAndRekorData(Ok(None)),
            RunEvent::Verified(verified),
        ]
    };
    assert_eq!(
        stopped(args(), until_verified(Err(text("bad")))),
        "Policy registry://policy cannot be validated\nbad"
    );
    assert_eq!(
        stopped(args(), until_verified(Ok(text("digest")))),
        "unreadable argument: disable-wasmtime-cache"
    );
    let args = RunArgs {
        disable_wasmtime_cache: arg("disable-wasmtime-cache", None),
        ..run_args("-", SettingsChoice::Absent, None)
    };
    let session = runs(RunSession::new(args), until_verified(Ok(text("digest"))));
    assert!(matches!(
        session.action(),
        Some(RunAction::PullAndRun { enable_wasmtime_cache: true, .. })
    ));
}

#[test]
fn manifest_needs_its_title_last() {
    let args = |settings| ManifestArgs { title: unknown("title"), ..manifest_args(settings) };
    let session = ManifestSession::new(args(SettingsChoice::Conflict));
    assert!(matches!(
        session.stage,
        ManifestStage::Failed { failure: Failure::ConflictingSettings }
    ));
    let session = ManifestSession::new(args(SettingsChoice::File(text("s.yml"))));
    let session = session.advance(ManifestEvent::SettingsRead(Err(text("gone"))));
    assert!(matches!(session.stage, ManifestStage::Failed { failure: Failure::SettingsFile { .. } }));
    let session = ManifestSession::new(args(SettingsChoice::Absent));
    assert!(matches!(session.stage, ManifestStage::Failed { failure } if failure.message() == "unreadable argument: title"));
}
