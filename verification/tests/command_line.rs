use clap::{Arg, ArgAction, ArgMatches, Command as Cli};
use kwctl::arg::{Arg as Argument, ArgError, Content};
use kwctl::args::{read_invocation, ArgTable, Invocation};
use kwctl::command::{command, Command, CommandError};
use kwctl::output::{self, digest_line, log_level, push_report, registry_uri, LogLevel};
use kwctl::table::Table;
use kwctl::text::{concat_all, split_once_equals, starts_with};

fn value(id: &'static str) -> Arg<'static> {
    Arg::new(id).long(id).takes_value(true)
}

fn values(id: &'static str) -> Arg<'static> {
    value(id).action(ArgAction::Append)
}

fn flag(id: &'static str) -> Arg<'static> {
    Arg::new(id).long(id)
}

fn with_remote(cli: Cli<'static>) -> Cli<'static> {
    cli.arg(value("sources-path")).arg(value("docker-config-json-path"))
}

fn with_verification(cli: Cli<'static>) -> Cli<'static> {
    with_remote(cli)
        .arg(values("verification-key"))
        .arg(values("verification-annotation"))
        .arg(values("cert-email"))
        .arg(values("cert-oidc-issuer"))
        .arg(values("github-owner"))
        .arg(values("github-repo"))
        .arg(value("verification-config-path"))
        .arg(values("fulcio-cert-path"))
        .arg(value("rekor-public-key-path"))
}

fn cli() -> Cli<'static> {
    Cli::new("kwctl")
        .arg(flag("verbose"))
        .subcommand(Cli::new("policies"))
        .subcommand(with_verification(
            Cli::new("pull").arg(Arg::new("uri")).arg(value("output-path")),
        ))
        .subcommand(with_verification(Cli::new("verify").arg(Arg::new("uri"))))
        .subcommand(with_remote(
            Cli::new("push")
                .arg(Arg::new("policy"))
                .arg(Arg::new("uri"))
                .arg(flag("force"))
                .arg(value("output")),
        ))
        .subcommand(Cli::new("rm").arg(Arg::new("uri")))
        .subcommand(with_verification(
            Cli::new("run")
                .arg(Arg::new("uri"))
                .arg(value("request-path"))
                .arg(value("settings-path"))
                .arg(value("settings-json"))
                .arg(value("execution-mode"))
                .arg(flag("disable-wasmtime-cache")),
        ))
        .subcommand(
            Cli::new("annotate")
                .arg(Arg::new("wasm-path"))
                .arg(value("metadata-path"))
                .arg(value("output-path")),
        )
        .subcommand(with_remote(
            Cli::new("inspect").arg(Arg::new("uri")).arg(value("output")),
        ))
        .subcommand(
            Cli::new("scaffold").subcommand(Cli::new("verification-config")).subcommand(
                Cli::new("manifest")
                    .arg(Arg::new("uri"))
                    .arg(value("type"))
                    .arg(value("settings-path"))
                    .arg(value("settings-json"))
                    .arg(value("title")),
            ),
        )
        .subcommand(Cli::new("completions").arg(value("shell")))
        .subcommand(with_remote(Cli::new("digest").arg(Arg::new("uri"))))
        .subcommand(Cli::new("dance"))
}

fn parse(line: &[&str]) -> ArgMatches {
    let mut words = vec!["kwctl"];
    words.extend_from_slice(line);
    cli().try_get_matches_from(words).unwrap()
}

fn invocation(line: &[&str]) -> Invocation {
    match read_invocation(&parse(line)) {
        Ok(invocation) => invocation,
        Err(error) => panic!("{}", error.message()),
    }
}

fn asked(line: &[&str]) -> Command {
    match command(&invocation(line)) {
        Ok(command) => command,
        Err(error) => panic!("{}", error.message()),
    }
}

fn refused(line: &[&str]) -> CommandError {
    match command(&invocation(line)) {
        Ok(_) => panic!("the command line is not complete"),
        Err(error) => error,
    }
}

fn one(arg: &Argument) -> Option<String> {
    match arg.one() {
        Ok(value) => value,
        Err(error) => panic!("{}", error.message()),
    }
}

fn many(arg: &Argument) -> Option<Vec<String>> {
    match arg.many() {
        Ok(values) => values,
        Err(error) => panic!("{}", error.message()),
    }
}

fn there(arg: &Argument) -> bool {
    match arg.contains() {
        Ok(there) => there,
        Err(error) => panic!("{}", error.message()),
    }
}

#[test]
fn verbose_is_read_beside_the_subcommand() {
    let quiet = invocation(&["policies"]);
    assert!(!quiet.verbose);
    assert_eq!(log_level(quiet.verbose), LogLevel::Info);
    let loud = invocation(&["--verbose", "policies"]);
    assert!(loud.verbose);
    assert_eq!(log_level(loud.verbose), LogLevel::Debug);
    assert_eq!(loud.path, vec!["policies".to_string()]);
    assert!(loud.args.is_empty());
}

#[test]
fn pull_is_read_with_all_its_arguments() {
    let args = match asked(&[
        "pull",
        "registry://policy",
        "--output-path=policy.wasm",
        "--sources-path=sources.yaml",
        "--docker-config-json-path=config.json",
        "--verification-key=a.pub",
        "--verification-key=b.pub",
        "--verification-annotation=env=prod",
        "--cert-email=a@b.c",
        "--cert-oidc-issuer=https://issuer",
        "--github-owner=kubewarden",
        "--github-repo=policy",
        "--verification-config-path=verification.yml",
        "--fulcio-cert-path=fulcio.pem",
        "--rekor-public-key-path=rekor.pub",
    ]) {
        Command::Pull(args) => args,
        _ => panic!("a pull is asked for"),
    };
    let single = |value: &str| Some(vec![value.to_string()]);
    assert_eq!(args.uri, "registry://policy");
    assert_eq!(args.output_path.as_deref(), Some("policy.wasm"));
    assert_eq!(one(&args.remote.sources_path).as_deref(), Some("sources.yaml"));
    assert_eq!(one(&args.remote.docker_config_json_path).as_deref(), Some("config.json"));
    let verification = &args.verification;
    assert_eq!(
        many(&verification.verification_key),
        Some(vec!["a.pub".to_string(), "b.pub".to_string()])
    );
    assert_eq!(many(&verification.verification_annotation), single("env=prod"));
    assert_eq!(many(&verification.cert_email), single("a@b.c"));
    assert_eq!(many(&verification.cert_oidc_issuer), single("https://issuer"));
    assert_eq!(many(&verification.github_owner), single("kubewarden"));
    assert_eq!(many(&verification.github_repo), single("policy"));
    assert_eq!(many(&verification.verification_config_path), single("verification.yml"));
    assert_eq!(many(&args.fulcio.fulcio_cert_path), single("fulcio.pem"));
    assert_eq!(many(&args.fulcio.rekor_public_key_path), single("rekor.pub"));
}

#[test]
fn absent_arguments_stay_absent() {
    let args = match asked(&["verify", "registry://policy"]) {
        Command::Verify(args) => args,
        _ => panic!("a verification is asked for"),
    };
    assert_eq!(args.uri, "registry://policy");
    assert_eq!(one(&args.remote.sources_path), None);
    assert_eq!(many(&args.verification.verification_key), None);
    assert_eq!(one(&args.verification.verification_config_path), None);
    assert_eq!(many(&args.fulcio.fulcio_cert_path), None);
}

#[test]
fn push_is_read_with_its_flag() {
    match asked(&["push", "policy.wasm", "ghcr.io/policy", "--force", "--output=json"]) {
        Command::Push(args) => {
            assert_eq!(one(&args.policy).as_deref(), Some("policy.wasm"));
            assert_eq!(one(&args.uri).as_deref(), Some("ghcr.io/policy"));
            assert!(there(&args.force));
            assert_eq!(one(&args.output).as_deref(), Some("json"));
        }
        _ => panic!("a push is asked for"),
    }
    match asked(&["push", "policy.wasm", "ghcr.io/policy"]) {
        Command::Push(args) => {
            assert!(!there(&args.force));
            assert_eq!(one(&args.output), None);
        }
        _ => panic!("a push is asked for"),
    }
}

#[test]
fn run_is_read_with_its_settings() {
    match asked(&[
        "run",
        "registry://policy",
        "--request-path=-",
        "--settings-json={}",
        "--execution-mode=opa",
        "--disable-wasmtime-cache",
    ]) {
        Command::Run(args) => {
            assert_eq!(args.uri, "registry://policy");
            assert_eq!(args.request_path, "-");
            assert_eq!(one(&args.settings_path), None);
            assert_eq!(one(&args.settings_json).as_deref(), Some("{}"));
            assert_eq!(one(&args.execution_mode).as_deref(), Some("opa"));
            assert!(there(&args.disable_wasmtime_cache));
        }
        _ => panic!("a run is asked for"),
    }
    match asked(&["run", "p", "--request-path=r", "--settings-json={}", "--settings-path=s"]) {
        Command::Run(args) => {
            assert_eq!(one(&args.settings_path).as_deref(), Some("s"));
            assert_eq!(one(&args.settings_json).as_deref(), Some("{}"));
            assert!(!there(&args.disable_wasmtime_cache));
        }
        _ => panic!("a run is asked for"),
    }
}

#[test]
fn scaffolds_are_told_apart() {
    assert!(matches!(
        asked(&["scaffold", "verification-config"]),
        Command::ScaffoldVerificationConfig
    ));
    assert!(matches!(asked(&["scaffold"]), Command::ScaffoldNothing));
    match asked(&[
        "scaffold",
        "manifest",
        "registry://policy",
        "--type=AdmissionPolicy",
        "--settings-path=s.yml",
        "--title=name",
    ]) {
        Command::ScaffoldManifest(args) => {
            assert_eq!(args.uri, "registry://policy");
            assert_eq!(args.resource_type, "AdmissionPolicy");
            assert_eq!(one(&args.settings_path).as_deref(), Some("s.yml"));
            assert_eq!(one(&args.settings_json), None);
            assert_eq!(one(&args.title).as_deref(), Some("name"));
        }
        _ => panic!("a manifest is asked for"),
    }
}

#[test]
fn short_commands_are_read() {
    assert!(matches!(asked(&["policies"]), Command::Policies));
    assert!(matches!(asked(&["rm", "registry://policy"]), Command::Rm { uri } if uri == "registry://policy"));
    assert!(matches!(
        asked(&["annotate", "in.wasm", "--metadata-path=m.yml", "--output-path=out.wasm"]),
        Command::Annotate { wasm_path, metadata_path, destination }
            if wasm_path == "in.wasm" && metadata_path == "m.yml" && destination == "out.wasm"
    ));
    assert!(matches!(
        asked(&["inspect", "registry://policy", "--output=yaml"]),
        Command::Inspect(args) if args.uri == "registry://policy" && args.output.as_deref() == Some("yaml")
    ));
    assert!(matches!(asked(&["completions", "--shell=bash"]), Command::Completions { shell } if shell == "bash"));
    assert!(matches!(
        asked(&["digest", "registry://policy", "--sources-path=s"]),
        Command::Digest(args) if args.uri == "registry://policy" && one(&args.remote.sources_path).as_deref() == Some("s")
    ));
}

#[test]
fn missing_arguments_are_named() {
    assert!(matches!(refused(&["pull"]), CommandError::Argument(ArgError::Missing(id)) if id == "uri"));
    assert!(matches!(refused(&["run", "p"]), CommandError::Argument(ArgError::Missing(id)) if id == "request-path"));
    assert!(matches!(refused(&["annotate", "w", "--output-path=o"]), CommandError::Argument(ArgError::Missing(id)) if id == "metadata-path"));
    assert!(matches!(refused(&["scaffold", "manifest", "p"]), CommandError::Argument(ArgError::Missing(id)) if id == "type"));
    assert_eq!(refused(&["completions"]).message(), "missing argument: shell");
}

#[test]
fn push_waits_with_its_arguments() {
    match asked(&["push"]) {
        Command::Push(args) => {
            assert!(matches!(args.policy.required(), Err(ArgError::Missing(id)) if id == "policy"));
            assert!(matches!(args.uri.required(), Err(ArgError::Missing(id)) if id == "uri"));
        }
        _ => panic!("a push is asked for"),
    }
}

#[test]
fn arguments_that_were_not_looked_up_are_unknown() {
    let args: ArgTable = Table::new()
        .insert("uri".to_string(), Content::Values(vec!["p".to_string()]));
    let invocation = Invocation { verbose: false, path: vec!["pull".to_string()], args };
    assert!(matches!(
        command(&invocation),
        Err(CommandError::Argument(ArgError::Unreadable(id))) if id == "output-path"
    ));
}

#[test]
fn unknown_subcommands_are_refused() {
    assert_eq!(refused(&["dance"]).message(), "unknown subcommand: dance");
    assert!(matches!(refused(&[]), CommandError::NoSubcommand));
    assert_eq!(refused(&[]).message(), "no subcommand");
}

#[test]
fn values_of_another_type_cannot_be_read() {
    let numbers = Cli::new("kwctl").arg(flag("verbose")).subcommand(
        Cli::new("rm").arg(
            Arg::new("uri")
                .takes_value(true)
                .value_parser(|text: &str| text.parse::<u64>()),
        ),
    );
    let matches = numbers.clone().try_get_matches_from(vec!["kwctl", "rm", "7"]).unwrap();
    let invocation = match read_invocation(&matches) {
        Ok(invocation) => invocation,
        Err(error) => panic!("{}", error.message()),
    };
    assert!(matches!(invocation.args.get("uri"), Some(Content::Foreign)));
    assert!(matches!(
        command(&invocation),
        Err(CommandError::Argument(ArgError::Unreadable(id))) if id == "uri"
    ));
    let matches = numbers.try_get_matches_from(vec!["kwctl", "rm"]).unwrap();
    assert!(matches!(
        read_invocation(&matches),
        Ok(invocation) if matches!(invocation.args.get("uri"), Some(Content::Absent))
    ));
}

#[test]
fn registry_scheme_is_added_once() {
    let short = registry_uri(&"ghcr.io/policy".to_string());
    assert_eq!(short, "registry://ghcr.io/policy");
    assert_eq!(registry_uri(&short), short);
    assert_eq!(registry_uri(&"registry:/x".to_string()), "registry://registry:/x");
    assert_eq!(registry_uri(&"".to_string()), "registry://");
}

#[test]
fn json_report_escapes_what_it_must() {
    let json = Some("json".to_string());
    let report = |text: &str| push_report(&json, &text.to_string());
    assert_eq!(report("a\"b\\c"), "{\"immutable_ref\":\"a\\\"b\\\\c\"}");
    assert_eq!(
        report("\u{8}\t\n\u{c}\r\u{1}\u{1f}\u{7f}é/"),
        "{\"immutable_ref\":\"\\b\\t\\n\\f\\r\\u0001\\u001f\u{7f}é/\"}"
    );
    assert_eq!(report(""), "{\"immutable_ref\":\"\"}");
    assert_eq!(
        push_report(&Some("JSON".to_string()), &"x".to_string()),
        "Policy successfully pushed: x\n"
    );
    assert_eq!(push_report(&None, &"x".to_string()), "Policy successfully pushed: x\n");
}

#[test]
fn lines_end() {
    assert_eq!(output::line("text"), "text\n");
    assert_eq!(digest_line(&"uri".to_string(), &"sha256:1".to_string()), "uri@sha256:1\n");
}

#[test]
fn texts_are_split_and_joined() {
    assert_eq!(split_once_equals("a=b"), Some(("a".to_string(), "b".to_string())));
    assert_eq!(split_once_equals("ä=b=c"), Some(("ä".to_string(), "b=c".to_string())));
    assert_eq!(split_once_equals("ab"), None);
    assert_eq!(concat_all(&vec!["a".to_string(), "".to_string(), "bc".to_string()]), "abc");
    assert_eq!(concat_all(&Vec::new()), "");
    assert!(starts_with("registry://x", "registry://"));
    assert!(!starts_with("reg", "registry://"));
}

#[test]
fn tables_keep_one_value_for_each_key() {
    let table: Table<String> = Table::new()
        .insert("a".to_string(), "1".to_string())
        .insert("b".to_string(), "2".to_string())
        .insert("a".to_string(), "3".to_string());
    assert_eq!(table.len(), 2);
    assert_eq!(table.get("a"), Some(&"3".to_string()));
    assert_eq!(table.get("c"), None);
    let copy = table.duplicate();
    assert_eq!(copy.entry(0), (&"a".to_string(), &"3".to_string()));
    assert_eq!(copy.entry(1), (&"b".to_string(), &"2".to_string()));
}
