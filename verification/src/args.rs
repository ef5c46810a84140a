//! Reading the arguments of a parsed command line.

use crate::arg::{ArgError, ArgErrorView, ArgView, Content, ContentView};
use crate::table::Table;
use crate::text::same;
use clap::parser::MatchesError;
use clap::ArgMatches;
use vstd::prelude::*;

verus! {

#[verifier::external_type_specification]
#[verifier::external_body]
pub struct ExArgMatches(clap::ArgMatches);

#[verifier::external_type_specification]
#[verifier::external_body]
pub struct ExMatchesError(clap::parser::MatchesError);

/// The names of the subcommands of a parsed command line, from the outermost inwards.
pub uninterp spec fn subcommand_names(matches: clap::ArgMatches) -> Seq<Seq<char>>;

/// The arguments that may be asked for, on the level of the command itself and then on the level
/// of each of its subcommands. A build of clap without debug assertions lets every argument be asked
/// for.
pub uninterp spec fn known_args(matches: clap::ArgMatches) -> Seq<Set<Seq<char>>>;

/// The arguments that are there, level by level, each with its values in their order. There are no
/// values where they are of another type than strings.
pub uninterp spec fn present_args(matches: clap::ArgMatches) -> Seq<
    Map<Seq<char>, Option<Seq<Seq<char>>>>,
>;

/// Calls `clap::ArgMatches::try_contains_id`.
///
/// Claimed of it: it tells whether the argument is there, and it fails exactly where the argument
/// may not be asked for.
#[verifier::external_body]
fn contains_id(matches: &ArgMatches, id: &str) -> (res: Result<bool, MatchesError>)
    ensures
        res is Ok == known_args(*matches)[0].contains(id@),
        res is Ok ==> res->Ok_0 == present_args(*matches)[0].contains_key(id@),
{
    matches.try_contains_id(id)
}

/// Calls `clap::ArgMatches::try_get_many` for strings.
///
/// Claimed of it: it gives all values of an argument that is there, in their order, and nothing
/// for one that is not; it fails exactly where the argument may not be asked for or has values of
/// another type.
#[verifier::external_body]
fn get_many(matches: &ArgMatches, id: &str) -> (res: Result<Option<Vec<String>>, MatchesError>)
    ensures
        res is Ok == readable(known_args(*matches)[0], present_args(*matches)[0], id@),
        res is Ok ==> res->Ok_0 is Some == present_args(*matches)[0].contains_key(id@),
        res is Ok && res->Ok_0 is Some ==> present_args(*matches)[0][id@] == Some(
            res->Ok_0->0.deep_view(),
        ),
{
    let values = matches.try_get_many::<String>(id)?;
    Ok(values.map(|values| values.cloned().collect()))
}

/// Calls `clap::ArgMatches::subcommand`.
///
/// Claimed of it: it gives the outermost subcommand with its name and with all that was parsed
/// from there on inwards, one level for it and one for each subcommand inside it; and nothing
/// where there is no subcommand.
#[verifier::external_body]
fn subcommand(matches: &ArgMatches) -> (res: Option<(String, &ArgMatches)>)
    ensures
        match res {
            Some((name, inner)) => {
                &&& subcommand_names(*matches).len() > 0
                &&& name@ == subcommand_names(*matches)[0]
                &&& subcommand_names(*inner) == subcommand_names(*matches).drop_first()
                &&& known_args(*matches).len() == subcommand_names(*matches).len() + 1
                &&& known_args(*inner) == known_args(*matches).drop_first()
                &&& present_args(*matches).len() == subcommand_names(*matches).len() + 1
                &&& present_args(*inner) == present_args(*matches).drop_first()
            },
            None => subcommand_names(*matches).len() == 0,
        },
{
    matches.subcommand().map(|(name, inner)| (name.to_string(), inner))
}

/// Whether the values of an argument can be read as strings.
pub open spec fn readable(
    known: Set<Seq<char>>,
    present: Map<Seq<char>, Option<Seq<Seq<char>>>>,
    id: Seq<char>,
) -> bool {
    known.contains(id) && (present.contains_key(id) ==> present[id] is Some)
}

/// What is known of an argument on a level with these arguments.
pub open spec fn content_of(
    known: Set<Seq<char>>,
    present: Map<Seq<char>, Option<Seq<Seq<char>>>>,
    id: Seq<char>,
) -> ContentView {
    if !known.contains(id) {
        ContentView::Unknown
    } else if !present.contains_key(id) {
        ContentView::Absent
    } else {
        match present[id] {
            Some(values) => ContentView::Values(values),
            None => ContentView::Foreign,
        }
    }
}

/// What is known of each of `ids`.
pub open spec fn table_of(
    known: Set<Seq<char>>,
    present: Map<Seq<char>, Option<Seq<Seq<char>>>>,
    ids: Seq<Seq<char>>,
) -> Map<Seq<char>, ContentView> {
    Map::new(|id: Seq<char>| ids.contains(id), |id: Seq<char>| content_of(known, present, id))
}

/// Arguments by their ids.
pub type ArgTable = Table<Content>;

fn read_content(matches: &ArgMatches, id: &str) -> (res: Content)
    ensures
        res.deep_view() == content_of(known_args(*matches)[0], present_args(*matches)[0], id@),
{
    match contains_id(matches, id) {
        Err(_) => Content::Unknown,
        Ok(false) => Content::Absent,
        Ok(true) => match get_many(matches, id) {
            Ok(Some(values)) => Content::Values(values),
            Ok(None) => Content::Absent,
            Err(_) => Content::Foreign,
        },
    }
}

fn read_args(matches: &ArgMatches, ids: &Vec<&str>) -> (res: ArgTable)
    ensures
        res@ == table_of(known_args(*matches)[0], present_args(*matches)[0], ids.deep_view()),
{
    let ghost known = known_args(*matches)[0];
    let ghost present = present_args(*matches)[0];
    let ghost views = ids.deep_view();
    let mut table: ArgTable = Table::new();
    assert(table@ =~= table_of(known, present, views.take(0)));
    for i in 0..ids.len()
        invariant
            known == known_args(*matches)[0],
            present == present_args(*matches)[0],
            views == ids.deep_view(),
            table@ == table_of(known, present, views.take(i as int)),
    {
        let id = ids[i];
        table = table.insert(id.to_owned(), read_content(matches, id));
        proof {
            assert(views[i as int] == id@);
            assert(views.take(i + 1) =~= views.take(i as int).push(id@));
            lemma_contains_push(views.take(i as int), id@);
            assert(table@ =~= table_of(known, present, views.take(i + 1)));
        }
    }
    assert(views.take(views.len() as int) =~= views);
    table
}

proof fn lemma_contains_push(ids: Seq<Seq<char>>, last: Seq<char>)
    ensures
        forall|id: Seq<char>|
            #[trigger] ids.push(last).contains(id) == (ids.contains(id) || id == last),
{
    assert forall|id: Seq<char>| #[trigger]
        ids.push(last).contains(id) == (ids.contains(id) || id == last) by {
        if ids.contains(id) {
            let i = choose|i: int| 0 <= i < ids.len() && ids[i] == id;
            assert(ids.push(last)[i] == id);
        }
        assert(ids.push(last)[ids.len() as int] == last);
    }
}

/// The arguments that say how to speak to remote servers.
pub open spec fn remote_ids() -> Seq<Seq<char>> {
    seq!["sources-path"@, "docker-config-json-path"@]
}

/// The arguments that say what to verify.
pub open spec fn verification_ids() -> Seq<Seq<char>> {
    seq![
        "verification-key"@,
        "verification-annotation"@,
        "cert-email"@,
        "cert-oidc-issuer"@,
        "github-owner"@,
        "github-repo"@,
        "verification-config-path"@,
    ]
}

/// The arguments that say what to verify against.
pub open spec fn fulcio_ids() -> Seq<Seq<char>> {
    seq!["fulcio-cert-path"@, "rekor-public-key-path"@]
}

/// The arguments of a command.
pub open spec fn arg_ids(path: Seq<Seq<char>>) -> Seq<Seq<char>> {
    if path == seq!["pull"@] {
        seq!["uri"@, "output-path"@] + remote_ids() + verification_ids() + fulcio_ids()
    } else if path == seq!["verify"@] {
        seq!["uri"@] + remote_ids() + verification_ids() + fulcio_ids()
    } else if path == seq!["push"@] {
        seq!["policy"@, "uri"@, "force"@, "output"@] + remote_ids()
    } else if path == seq!["rm"@] {
        seq!["uri"@]
    } else if path == seq!["run"@] {
        seq![
            "uri"@,
            "request-path"@,
            "settings-path"@,
            "settings-json"@,
            "execution-mode"@,
            "disable-wasmtime-cache"@,
        ] + remote_ids() + verification_ids() + fulcio_ids()
    } else if path == seq!["annotate"@] {
        seq!["wasm-path"@, "metadata-path"@, "output-path"@]
    } else if path == seq!["inspect"@] {
        seq!["uri"@, "output"@] + remote_ids()
    } else if path == seq!["scaffold"@, "manifest"@] {
        seq!["uri"@, "type"@, "settings-path"@, "settings-json"@, "title"@]
    } else if path == seq!["completions"@] {
        seq!["shell"@]
    } else if path == seq!["digest"@] {
        seq!["uri"@] + remote_ids()
    } else {
        Seq::empty()
    }
}

/// Tells whether `path` is made of this one name.
pub fn is_command(path: &Vec<String>, name: &str) -> (res: bool)
    ensures
        res == (path.deep_view() == seq![name@]),
{
    let res = path.len() == 1 && same(path[0].as_str(), name);
    proof {
        if res {
            assert(path.deep_view() =~= seq![name@]);
        } else if path.deep_view() == seq![name@] {
            assert(path.deep_view().len() == 1);
            assert(path.deep_view()[0] == name@);
        }
    }
    res
}

/// Tells whether `path` is made of these two names.
pub fn is_subcommand(path: &Vec<String>, outer: &str, inner: &str) -> (res: bool)
    ensures
        res == (path.deep_view() == seq![outer@, inner@]),
{
    let res = path.len() == 2 && same(path[0].as_str(), outer) && same(path[1].as_str(), inner);
    proof {
        if res {
            assert(path.deep_view() =~= seq![outer@, inner@]);
        } else if path.deep_view() == seq![outer@, inner@] {
            assert(path.deep_view().len() == 2);
            assert(path.deep_view()[0] == outer@);
            assert(path.deep_view()[1] == inner@);
        }
    }
    res
}

fn joined(first: Vec<&'static str>, second: Vec<&'static str>) -> (res: Vec<&'static str>)
    ensures
        res.deep_view() == first.deep_view() + second.deep_view(),
{
    let mut res = first;
    let mut more = second;
    let ghost before = res.deep_view();
    let ghost added = more.deep_view();
    res.append(&mut more);
    assert(res.deep_view() =~= before + added);
    res
}

fn remote_arguments() -> (res: Vec<&'static str>)
    ensures
        res.deep_view() == remote_ids(),
{
    let res = vec!["sources-path", "docker-config-json-path"];
    assert(res.deep_view() =~= remote_ids());
    res
}

fn verification_arguments() -> (res: Vec<&'static str>)
    ensures
        res.deep_view() == remote_ids() + verification_ids() + fulcio_ids(),
{
    let options = vec![
        "verification-key",
        "verification-annotation",
        "cert-email",
        "cert-oidc-issuer",
        "github-owner",
        "github-repo",
        "verification-config-path",
    ];
    let fulcio = vec!["fulcio-cert-path", "rekor-public-key-path"];
    assert(options.deep_view() =~= verification_ids());
    assert(fulcio.deep_view() =~= fulcio_ids());
    joined(joined(remote_arguments(), options), fulcio)
}

fn arguments(path: &Vec<String>) -> (res: Vec<&'static str>)
    ensures
        res.deep_view() == arg_ids(path.deep_view()),
{
    let res = if is_command(path, "pull") {
        joined(vec!["uri", "output-path"], verification_arguments())
    } else if is_command(path, "verify") {
        joined(vec!["uri"], verification_arguments())
    } else if is_command(path, "push") {
        joined(vec!["policy", "uri", "force", "output"], remote_arguments())
    } else if is_command(path, "rm") {
        vec!["uri"]
    } else if is_command(path, "run") {
        joined(
            vec![
                "uri",
                "request-path",
                "settings-path",
                "settings-json",
                "execution-mode",
                "disable-wasmtime-cache",
            ],
            verification_arguments(),
        )
    } else if is_command(path, "annotate") {
        vec!["wasm-path", "metadata-path", "output-path"]
    } else if is_command(path, "inspect") {
        joined(vec!["uri", "output"], remote_arguments())
    } else if is_subcommand(path, "scaffold", "manifest") {
        vec!["uri", "type", "settings-path", "settings-json", "title"]
    } else if is_command(path, "completions") {
        vec!["shell"]
    } else if is_command(path, "digest") {
        joined(vec!["uri"], remote_arguments())
    } else {
        Vec::new()
    };
    assert(res.deep_view() =~= arg_ids(path.deep_view()));
    res
}

/// What a command line asks for.
pub struct Invocation {
    pub verbose: bool,
    /// The names of the subcommands, as far as they matter.
    pub path: Vec<String>,
    /// What is known of the arguments of the innermost of them.
    pub args: ArgTable,
}

pub struct InvocationView {
    pub verbose: bool,
    pub path: Seq<Seq<char>>,
    pub args: Map<Seq<char>, ContentView>,
}

impl View for Invocation {
    type V = InvocationView;

    open spec fn view(&self) -> InvocationView {
        InvocationView {
            verbose: self.verbose,
            path: self.path.deep_view(),
            args: self.args@,
        }
    }
}

/// The subcommands that matter: the outermost, and of `scaffold` the one inside it.
pub open spec fn command_path(names: Seq<Seq<char>>) -> Seq<Seq<char>> {
    if names.len() == 0 {
        Seq::empty()
    } else if names.len() > 1 && names[0] == "scaffold"@ {
        seq![names[0], names[1]]
    } else {
        seq![names[0]]
    }
}

/// What a parsed command line asks for. There is nothing where `verbose` may not be asked for; an
/// argument of a subcommand is taken as it is, and is judged where its value is needed.
pub open spec fn invocation_of(
    names: Seq<Seq<char>>,
    known: Seq<Set<Seq<char>>>,
    present: Seq<Map<Seq<char>, Option<Seq<Seq<char>>>>>,
) -> Result<InvocationView, ArgErrorView> {
    let path = command_path(names);
    let level = path.len() as int;
    if !known[0].contains("verbose"@) {
        Err(ArgErrorView::Unreadable("verbose"@))
    } else {
        Ok(
            InvocationView {
                verbose: present[0].contains_key("verbose"@),
                path,
                args: table_of(known[level], present[level], arg_ids(path)),
            },
        )
    }
}

/// Reads from a parsed command line what it asks for.
pub fn read_invocation(matches: &ArgMatches) -> (res: Result<Invocation, ArgError>)
    ensures
        match (
            res,
            invocation_of(
                subcommand_names(*matches),
                known_args(*matches),
                present_args(*matches),
            ),
        ) {
            (Ok(invocation), Ok(expected)) => invocation@ == expected,
            (Err(error), Err(expected)) => error@ == expected,
            _ => false,
        },
{
    let verbose = match contains_id(matches, "verbose") {
        Ok(verbose) => verbose,
        Err(_) => {
            return Err(ArgError::Unreadable("verbose".to_owned()));
        },
    };
    let ghost names = subcommand_names(*matches);
    let mut path: Vec<String> = Vec::new();
    let mut level: &ArgMatches = matches;
    match subcommand(matches) {
        Some((name, inner)) => {
            let nested = same(name.as_str(), "scaffold");
            path.push(name);
            level = inner;
            if nested {
                match subcommand(inner) {
                    Some((name, innermost)) => {
                        path.push(name);
                        level = innermost;
                    },
                    None => {},
                }
            }
        },
        None => {},
    }
    assert(path.deep_view() =~= command_path(names));
    assert(known_args(*level)[0] == known_args(*matches)[path.len() as int]);
    assert(present_args(*level)[0] == present_args(*matches)[path.len() as int]);
    let args = read_args(level, &arguments(&path));
    Ok(Invocation { verbose, path, args })
}

/// Whether `arg` is the argument `id`, and tells of it what a level with these arguments knows: that
/// it may not be asked for, that it is not there, that its values are no strings, or its values.
pub open spec fn shows(
    known: Set<Seq<char>>,
    present: Map<Seq<char>, Option<Seq<Seq<char>>>>,
    arg: ArgView,
    id: Seq<char>,
) -> bool {
    &&& arg.id == id
    &&& arg.content is Unknown <==> !known.contains(id)
    &&& arg.content is Absent <==> known.contains(id) && !present.contains_key(id)
    &&& arg.content is Foreign <==> known.contains(id) && present.contains_key(id)
        && present[id] is None
    &&& arg.content matches ContentView::Values(values) ==> present[id] == Some(values)
}

/// Whether the first value of the argument `id` is `value`, or whether it has none.
pub open spec fn gives(
    known: Set<Seq<char>>,
    present: Map<Seq<char>, Option<Seq<Seq<char>>>>,
    id: Seq<char>,
    value: Option<Seq<char>>,
) -> bool {
    &&& known.contains(id)
    &&& value is Some ==> {
        &&& present.contains_key(id)
        &&& present[id] matches Some(values)
        &&& values.len() > 0
        &&& values[0] == value->0
    }
    &&& value is None ==> {
        &&& present.contains_key(id) ==> present[id] == Some(Seq::<Seq<char>>::empty())
    }
}

/// A command line is `verbose` where that argument is there, and its command is the outermost
/// subcommand, with the one inside it for `scaffold`.
pub proof fn command_line_names_its_command(
    names: Seq<Seq<char>>,
    known: Seq<Set<Seq<char>>>,
    present: Seq<Map<Seq<char>, Option<Seq<Seq<char>>>>>,
)
    requires
        known[0].contains("verbose"@),
    ensures
        invocation_of(names, known, present) matches Ok(invocation) && {
            &&& invocation.verbose == present[0].contains_key("verbose"@)
            &&& names.len() == 0 ==> invocation.path.len() == 0
            &&& names.len() > 0 ==> invocation.path.len() > 0 && invocation.path[0] == names[0]
            &&& names.len() > 0 && names[0] != "scaffold"@ ==> invocation.path.len() == 1
            &&& names.len() == 1 ==> invocation.path.len() == 1
            &&& names.len() > 1 && names[0] == "scaffold"@ ==> invocation.path.len() == 2
                && invocation.path[1] == names[1]
        },
{
}

/// An invocation shows its own parts.
pub proof fn invocations_show_their_parts(invocation: Invocation)
    ensures
        invocation@.verbose == invocation.verbose,
        invocation@.path == invocation.path.deep_view(),
        invocation@.args == invocation.args@,
{
}

} // verus!
