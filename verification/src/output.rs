//! What is written to the standard output, and where a pushed policy goes.

use crate::text;
use vstd::prelude::*;

verus! {

/// Which log messages are shown.
#[derive(Clone, Copy, PartialEq, Eq, Structural, Debug)]
pub enum LogLevel {
    Info,
    Debug,
}

/// The log level for a run with or without `verbose`.
pub fn log_level(verbose: bool) -> (res: LogLevel)
    ensures
        res == if verbose {
            LogLevel::Debug
        } else {
            LogLevel::Info
        },
{
    if verbose {
        LogLevel::Debug
    } else {
        LogLevel::Info
    }
}

/// `uri` with the scheme of a registry.
pub open spec fn with_registry_scheme(uri: Seq<char>) -> Seq<char> {
    if "registry://"@.is_prefix_of(uri) {
        uri
    } else {
        "registry://"@ + uri
    }
}

/// Gives `uri` the scheme of a registry, unless it has it.
pub fn registry_uri(uri: &String) -> (res: String)
    ensures
        res@ == with_registry_scheme(uri@),
{
    if text::starts_with(uri.as_str(), "registry://") {
        uri.clone()
    } else {
        "registry://".to_owned().concat(uri.as_str())
    }
}

/// The scheme is always there afterwards.
pub proof fn registry_scheme_is_there(uri: Seq<char>)
    ensures
        "registry://"@.is_prefix_of(with_registry_scheme(uri)),
{
    if !"registry://"@.is_prefix_of(uri) {
        let longer = "registry://"@ + uri;
        assert("registry://"@ =~= longer.subrange(0, "registry://"@.len() as int));
    }
}

/// The scheme is given once only.
pub proof fn registry_scheme_is_given_once(uri: Seq<char>)
    ensures
        with_registry_scheme(with_registry_scheme(uri)) == with_registry_scheme(uri),
{
    registry_scheme_is_there(uri);
}

/// `text` as a line of its own.
pub open spec fn line_text(text: Seq<char>) -> Seq<char> {
    text + "\n"@
}

/// `text` as a line of its own.
pub fn line(text: &str) -> (res: String)
    ensures
        res@ == line_text(text@),
{
    text.to_owned().concat("\n")
}

/// The line that tells a policy's digest.
pub open spec fn digest_text(uri: Seq<char>, digest: Seq<char>) -> Seq<char> {
    uri + "@"@ + digest + "\n"@
}

/// The line that tells a policy's digest.
pub fn digest_line(uri: &String, digest: &String) -> (res: String)
    ensures
        res@ == digest_text(uri@, digest@),
{
    uri.clone().concat("@").concat(digest.as_str()).concat("\n")
}

/// A lower case hexadecimal digit.
pub open spec fn hex_digit(n: int) -> char {
    if n < 10 {
        ('0' as int + n) as char
    } else {
        ('a' as int + n - 10) as char
    }
}

/// How a character stands inside a JSON string.
pub open spec fn json_escape(c: char) -> Seq<char> {
    if c == '"' || c == '\\' {
        seq!['\\', c]
    } else if c == '\u{8}' {
        seq!['\\', 'b']
    } else if c == '\t' {
        seq!['\\', 't']
    } else if c == '\n' {
        seq!['\\', 'n']
    } else if c == '\u{c}' {
        seq!['\\', 'f']
    } else if c == '\r' {
        seq!['\\', 'r']
    } else if (c as int) < 0x20 {
        seq!['\\', 'u', '0', '0', hex_digit(c as int / 16), hex_digit(c as int % 16)]
    } else {
        seq![c]
    }
}

/// A text as a JSON string.
pub open spec fn json_string(text: Seq<char>) -> Seq<char> {
    seq!['"'] + text.flat_map(|c: char| json_escape(c)) + seq!['"']
}

/// A JSON object of one member.
pub open spec fn json_member(key: Seq<char>, value: Seq<char>) -> Seq<char> {
    seq!['{'] + json_string(key) + seq![':'] + json_string(value) + seq!['}']
}

#[verifier::external_type_specification]
#[verifier::external_body]
pub struct ExJsonError(serde_json::Error);

/// Calls `serde_json::to_string` on a map from one string to another.
///
/// Claimed of it: it writes a compact object of one member, with quotes, backslashes and control
/// characters of both strings escaped and all other characters as they are, and it does not fail,
/// since the keys are strings and the text goes into memory.
#[verifier::external_body]
fn json_object(key: &str, value: &str) -> (res: Result<String, serde_json::Error>)
    ensures
        res is Ok,
        res->Ok_0@ == json_member(key@, value@),
{
    let mut members: std::collections::HashMap<&str, String> = std::collections::HashMap::new();
    members.insert(key, value.to_string());
    serde_json::to_string(&members)
}

/// What is told of a push that gave `immutable_ref`: an object where the output is to be JSON,
/// and else a line.
pub open spec fn push_text(output: Option<Seq<char>>, immutable_ref: Seq<char>) -> Seq<char> {
    if output == Some("json"@) {
        json_member("immutable_ref"@, immutable_ref)
    } else {
        "Policy successfully pushed: "@ + immutable_ref + "\n"@
    }
}

/// What is told of a push that gave `immutable_ref`.
pub fn push_report(output: &Option<String>, immutable_ref: &String) -> (res: String)
    ensures
        res@ == push_text(output.deep_view(), immutable_ref@),
{
    let json = match output {
        Some(output) => *output == "json".to_owned(),
        None => false,
    };
    if json {
        json_object("immutable_ref", immutable_ref.as_str()).unwrap()
    } else {
        "Policy successfully pushed: ".to_owned().concat(immutable_ref.as_str()).concat("\n")
    }
}

/// A URI that has the scheme of a registry stays as it is, and any other gets it put in front, with
/// nothing else changed.
pub proof fn registry_scheme_is_all_that_changes(uri: Seq<char>)
    ensures
        "registry://"@.is_prefix_of(uri) ==> with_registry_scheme(uri) == uri,
        !"registry://"@.is_prefix_of(uri) ==> with_registry_scheme(uri) == "registry://"@ + uri,
{
}

/// A digest is told behind the URI and `@`, on a line of its own.
pub proof fn digest_is_told_behind_the_uri(uri: Seq<char>, digest: Seq<char>)
    ensures
        digest_text(uri, digest) == uri + "@"@ + digest + "\n"@,
{
}

/// A push is told as an object under `immutable_ref` where the output is `json`, and on a line in
/// words for every other output.
pub proof fn push_is_told_as_asked(output: Option<Seq<char>>, immutable_ref: Seq<char>)
    ensures
        output == Some("json"@) ==> push_text(output, immutable_ref) == json_member(
            "immutable_ref"@,
            immutable_ref,
        ),
        output != Some("json"@) ==> push_text(output, immutable_ref)
            == "Policy successfully pushed: "@ + immutable_ref + "\n"@,
{
}

/// A line is its text with a line end behind it.
pub proof fn lines_keep_their_text(text: Seq<char>)
    ensures
        line_text(text) == text + "\n"@,
{
}

} // verus!
