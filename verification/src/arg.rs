//! One argument of a command line, and what may be asked of it.

use vstd::prelude::*;

verus! {

/// What is known of an argument.
pub enum Content {
    /// It may not be asked for.
    Unknown,
    /// It is not there.
    Absent,
    /// It is there, with values that are no strings.
    Foreign,
    /// It is there, with these values.
    Values(Vec<String>),
}

pub enum ContentView {
    Unknown,
    Absent,
    Foreign,
    Values(Seq<Seq<char>>),
}

impl DeepView for Content {
    type V = ContentView;

    open spec fn deep_view(&self) -> ContentView {
        match *self {
            Content::Unknown => ContentView::Unknown,
            Content::Absent => ContentView::Absent,
            Content::Foreign => ContentView::Foreign,
            Content::Values(values) => ContentView::Values(values.deep_view()),
        }
    }
}

impl Content {
    /// The same content.
    pub fn duplicate(&self) -> (res: Content)
        ensures
            res.deep_view() == self.deep_view(),
    {
        match self {
            Content::Unknown => Content::Unknown,
            Content::Absent => Content::Absent,
            Content::Foreign => Content::Foreign,
            Content::Values(values) => {
                let copy = values.clone();
                assert(copy.deep_view() =~= values.deep_view());
                Content::Values(copy)
            },
        }
    }
}

/// An argument under its id.
pub struct Arg {
    pub id: String,
    pub content: Content,
}

pub struct ArgView {
    pub id: Seq<char>,
    pub content: ContentView,
}

impl View for Arg {
    type V = ArgView;

    open spec fn view(&self) -> ArgView {
        ArgView { id: self.id@, content: self.content.deep_view() }
    }
}

/// Why an argument gives no answer. The text is its id.
pub enum ArgError {
    /// It may not be asked for, or its values are no strings.
    Unreadable(String),
    /// It has no value and has to have one.
    Missing(String),
}

pub enum ArgErrorView {
    Unreadable(Seq<char>),
    Missing(Seq<char>),
}

impl View for ArgError {
    type V = ArgErrorView;

    open spec fn view(&self) -> ArgErrorView {
        match *self {
            ArgError::Unreadable(id) => ArgErrorView::Unreadable(id@),
            ArgError::Missing(id) => ArgErrorView::Missing(id@),
        }
    }
}

impl ArgError {
    /// The message that the user gets.
    pub open spec fn text(self) -> Seq<char> {
        match self {
            ArgError::Unreadable(id) => "unreadable argument: "@ + id@,
            ArgError::Missing(id) => "missing argument: "@ + id@,
        }
    }

    /// The message that the user gets.
    pub fn message(&self) -> (res: String)
        ensures
            res@ == self.text(),
    {
        match self {
            ArgError::Unreadable(id) => "unreadable argument: ".to_owned().concat(id.as_str()),
            ArgError::Missing(id) => "missing argument: ".to_owned().concat(id.as_str()),
        }
    }
}

impl ArgView {
    /// Whether the argument is there, whatever its values are.
    pub open spec fn contains(self) -> Result<bool, ArgErrorView> {
        match self.content {
            ContentView::Unknown => Err(ArgErrorView::Unreadable(self.id)),
            ContentView::Absent => Ok(false),
            _ => Ok(true),
        }
    }

    /// All values, if the argument is there.
    pub open spec fn many(self) -> Result<Option<Seq<Seq<char>>>, ArgErrorView> {
        match self.content {
            ContentView::Absent => Ok(None),
            ContentView::Values(values) => Ok(Some(values)),
            _ => Err(ArgErrorView::Unreadable(self.id)),
        }
    }

    /// The first value, if there is one.
    pub open spec fn one(self) -> Result<Option<Seq<char>>, ArgErrorView> {
        match self.many() {
            Ok(Some(values)) => Ok(
                if values.len() > 0 {
                    Some(values[0])
                } else {
                    None
                },
            ),
            Ok(None) => Ok(None),
            Err(error) => Err(error),
        }
    }

    /// The first value, which has to be there.
    pub open spec fn required(self) -> Result<Seq<char>, ArgErrorView> {
        match self.one() {
            Ok(Some(value)) => Ok(value),
            Ok(None) => Err(ArgErrorView::Missing(self.id)),
            Err(error) => Err(error),
        }
    }
}

impl Arg {
    /// Whether the argument is there, whatever its values are.
    pub open spec fn presence(self) -> Result<bool, ArgError> {
        match self.content {
            Content::Unknown => Err(ArgError::Unreadable(self.id)),
            Content::Absent => Ok(false),
            _ => Ok(true),
        }
    }

    /// The first value, if there is one.
    pub open spec fn first(self) -> Result<Option<String>, ArgError> {
        match self.content {
            Content::Absent => Ok(None),
            Content::Values(values) => Ok(
                if values@.len() > 0 {
                    Some(values@[0])
                } else {
                    None
                },
            ),
            _ => Err(ArgError::Unreadable(self.id)),
        }
    }

    /// The first value, which has to be there.
    pub open spec fn sole(self) -> Result<String, ArgError> {
        match self.first() {
            Ok(Some(value)) => Ok(value),
            Ok(None) => Err(ArgError::Missing(self.id)),
            Err(error) => Err(error),
        }
    }

    /// The same argument.
    pub fn duplicate(&self) -> (res: Arg)
        ensures
            res@ == self@,
    {
        Arg { id: self.id.clone(), content: self.content.duplicate() }
    }

    /// Tells whether the argument is there, whatever its values are.
    pub fn contains(&self) -> (res: Result<bool, ArgError>)
        ensures
            res == self.presence(),
            match (res, self@.contains()) {
                (Ok(there), Ok(expected)) => there == expected,
                (Err(error), Err(expected)) => error@ == expected,
                _ => false,
            },
    {
        match &self.content {
            Content::Unknown => Err(ArgError::Unreadable(self.id.clone())),
            Content::Absent => Ok(false),
            _ => Ok(true),
        }
    }

    /// Gives all values, if the argument is there.
    pub fn many(&self) -> (res: Result<Option<Vec<String>>, ArgError>)
        ensures
            match (res, self@.many()) {
                (Ok(values), Ok(expected)) => values.deep_view() == expected,
                (Err(error), Err(expected)) => error@ == expected,
                _ => false,
            },
    {
        match &self.content {
            Content::Absent => Ok(None),
            Content::Values(values) => {
                let copy = values.clone();
                assert(copy.deep_view() =~= values.deep_view());
                Ok(Some(copy))
            },
            _ => Err(ArgError::Unreadable(self.id.clone())),
        }
    }

    /// Gives the first value, if there is one.
    pub fn one(&self) -> (res: Result<Option<String>, ArgError>)
        ensures
            res == self.first(),
            match (res, self@.one()) {
                (Ok(value), Ok(expected)) => value.deep_view() == expected,
                (Err(error), Err(expected)) => error@ == expected,
                _ => false,
            },
    {
        match &self.content {
            Content::Absent => Ok(None),
            Content::Values(values) => Ok(
                if values.len() > 0 {
                    Some(values[0].clone())
                } else {
                    None
                },
            ),
            _ => Err(ArgError::Unreadable(self.id.clone())),
        }
    }

    /// Gives the first value, which has to be there.
    pub fn required(&self) -> (res: Result<String, ArgError>)
        ensures
            res == self.sole(),
            match (res, self@.required()) {
                (Ok(value), Ok(expected)) => value@ == expected,
                (Err(error), Err(expected)) => error@ == expected,
                _ => false,
            },
    {
        match self.one() {
            Ok(Some(value)) => Ok(value),
            Ok(None) => Err(ArgError::Missing(self.id.clone())),
            Err(error) => Err(error),
        }
    }
}

/// An argument with values gives all of them, and its first one, where one is asked for.
pub proof fn given_argument_hands_out_its_values(arg: Arg, values: Vec<String>)
    requires
        arg.content == Content::Values(values),
    ensures
        arg.presence() == Ok::<bool, ArgError>(true),
        values@.len() > 0 ==> {
            &&& arg.first() == Ok::<Option<String>, ArgError>(Some(values@[0]))
            &&& arg.sole() == Ok::<String, ArgError>(values@[0])
        },
        values@.len() == 0 ==> {
            &&& arg.first() == Ok::<Option<String>, ArgError>(None)
            &&& arg.sole() == Err::<String, ArgError>(ArgError::Missing(arg.id))
        },
        arg@.content == ContentView::Values(values.deep_view()),
{
}

/// An argument that is not there gives no value, and is missing where it has to have one.
pub proof fn absent_argument_gives_nothing(arg: Arg)
    requires
        arg.content is Absent,
    ensures
        arg.presence() == Ok::<bool, ArgError>(false),
        arg.first() == Ok::<Option<String>, ArgError>(None),
        arg.sole() == Err::<String, ArgError>(ArgError::Missing(arg.id)),
        arg@.content is Absent,
{
}

/// An argument with values that are no strings is there, but none of its values can be had; one
/// that may not be asked for does not even tell whether it is there.
pub proof fn unreadable_argument_gives_no_answer(arg: Arg)
    requires
        arg.content is Foreign || arg.content is Unknown,
    ensures
        arg.content is Foreign ==> arg.presence() == Ok::<bool, ArgError>(true)
            && arg@.content is Foreign,
        arg.content is Unknown ==> arg.presence() == Err::<bool, ArgError>(
            ArgError::Unreadable(arg.id),
        ) && arg@.content is Unknown,
        arg.first() == Err::<Option<String>, ArgError>(ArgError::Unreadable(arg.id)),
        arg.sole() == Err::<String, ArgError>(ArgError::Unreadable(arg.id)),
{
}

/// What an argument shows answers as the argument itself: by its values where it has some, with
/// nothing where it is not there, and with an error under its id where it cannot be read.
pub proof fn shown_argument_answers_by_its_content(arg: ArgView)
    ensures
        arg.content matches ContentView::Values(values) ==> {
            &&& arg.contains() == Ok::<bool, ArgErrorView>(true)
            &&& arg.many() == Ok::<Option<Seq<Seq<char>>>, ArgErrorView>(Some(values))
            &&& values.len() > 0 ==> arg.one() == Ok::<Option<Seq<char>>, ArgErrorView>(
                Some(values[0]),
            ) && arg.required() == Ok::<Seq<char>, ArgErrorView>(values[0])
            &&& values.len() == 0 ==> arg.one() == Ok::<Option<Seq<char>>, ArgErrorView>(None)
                && arg.required() == Err::<Seq<char>, ArgErrorView>(ArgErrorView::Missing(arg.id))
        },
        arg.content is Absent ==> {
            &&& arg.contains() == Ok::<bool, ArgErrorView>(false)
            &&& arg.many() == Ok::<Option<Seq<Seq<char>>>, ArgErrorView>(None)
            &&& arg.one() == Ok::<Option<Seq<char>>, ArgErrorView>(None)
            &&& arg.required() == Err::<Seq<char>, ArgErrorView>(ArgErrorView::Missing(arg.id))
        },
        arg.content is Foreign ==> arg.contains() == Ok::<bool, ArgErrorView>(true),
        arg.content is Unknown ==> arg.contains() == Err::<bool, ArgErrorView>(
            ArgErrorView::Unreadable(arg.id),
        ),
        arg.content is Foreign || arg.content is Unknown ==> {
            let error = ArgErrorView::Unreadable(arg.id);
            &&& arg.many() == Err::<Option<Seq<Seq<char>>>, ArgErrorView>(error)
            &&& arg.one() == Err::<Option<Seq<char>>, ArgErrorView>(error)
            &&& arg.required() == Err::<Seq<char>, ArgErrorView>(error)
        },
{
}

/// An argument shows its id and its content, and an error shows its kind and its id.
pub proof fn arguments_show_their_parts(arg: Arg, id: String)
    ensures
        arg@.id == arg.id@,
        arg@.content == arg.content.deep_view(),
        ArgError::Unreadable(id)@ == ArgErrorView::Unreadable(id@),
        ArgError::Missing(id)@ == ArgErrorView::Missing(id@),
        ArgError::Unreadable(id).text() == "unreadable argument: "@ + id@,
        ArgError::Missing(id).text() == "missing argument: "@ + id@,
{
}

} // verus!
