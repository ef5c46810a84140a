//! Where the settings of a policy come from.

use crate::arg::{Arg, ArgError, Content};
use vstd::prelude::*;

verus! {

/// What the command line says on settings.
pub enum SettingsChoice {
    /// There are none.
    Absent,
    /// They stand in a file.
    File(String),
    /// They stand on the command line.
    Inline(String),
    /// Both a file and a text are given.
    Conflict,
}

/// The choice that the arguments for a file and for a text make. A file goes first, and it counts
/// only where it has a name; a text that is there has to have a value.
pub open spec fn choice_of(path: Arg, json: Arg) -> Result<SettingsChoice, ArgError> {
    match (path.presence(), json.presence()) {
        (Err(error), _) => Err(error),
        (_, Err(error)) => Err(error),
        (Ok(true), Ok(true)) => Ok(SettingsChoice::Conflict),
        (Ok(true), Ok(false)) => match path.first() {
            Ok(Some(path)) => Ok(SettingsChoice::File(path)),
            Ok(None) => Ok(SettingsChoice::Absent),
            Err(error) => Err(error),
        },
        (Ok(false), Ok(true)) => match json.sole() {
            Ok(text) => Ok(SettingsChoice::Inline(text)),
            Err(error) => Err(error),
        },
        (Ok(false), Ok(false)) => Ok(SettingsChoice::Absent),
    }
}

/// The choice that the arguments for a file and for a text make.
pub fn settings_choice(path: &Arg, json: &Arg) -> (res: Result<SettingsChoice, ArgError>)
    ensures
        res == choice_of(*path, *json),
{
    let path_there = match path.contains() {
        Ok(there) => there,
        Err(error) => return Err(error),
    };
    let json_there = match json.contains() {
        Ok(there) => there,
        Err(error) => return Err(error),
    };
    if path_there && json_there {
        Ok(SettingsChoice::Conflict)
    } else if path_there {
        match path.one() {
            Ok(Some(path)) => Ok(SettingsChoice::File(path)),
            Ok(None) => Ok(SettingsChoice::Absent),
            Err(error) => Err(error),
        }
    } else if json_there {
        match json.required() {
            Ok(text) => Ok(SettingsChoice::Inline(text)),
            Err(error) => Err(error),
        }
    } else {
        Ok(SettingsChoice::Absent)
    }
}

/// Settings come from the file where only that is there, from the text where only that is there,
/// and from nowhere where neither is there; both together do not go.
pub proof fn settings_come_from_what_is_there(path: Arg, json: Arg)
    ensures
        path.content is Absent && json.content is Absent ==> choice_of(path, json) == Ok::<
            SettingsChoice,
            ArgError,
        >(SettingsChoice::Absent),
        (path.content is Values || path.content is Foreign) && (json.content is Values
            || json.content is Foreign) ==> choice_of(path, json) == Ok::<SettingsChoice, ArgError>(
            SettingsChoice::Conflict,
        ),
        (path.content matches Content::Values(values) && json.content is Absent && values@.len()
            > 0) ==> choice_of(path, json) == Ok::<SettingsChoice, ArgError>(
            SettingsChoice::File(path.content->Values_0@[0]),
        ),
        (path.content matches Content::Values(values) && json.content is Absent && values@.len()
            == 0) ==> choice_of(path, json) == Ok::<SettingsChoice, ArgError>(
            SettingsChoice::Absent,
        ),
        (json.content matches Content::Values(values) && path.content is Absent && values@.len()
            > 0) ==> choice_of(path, json) == Ok::<SettingsChoice, ArgError>(
            SettingsChoice::Inline(json.content->Values_0@[0]),
        ),
        (json.content matches Content::Values(values) && path.content is Absent && values@.len()
            == 0) ==> choice_of(path, json) == Err::<SettingsChoice, ArgError>(
            ArgError::Missing(json.id),
        ),
        path.content is Unknown || (path.content is Foreign && json.content is Absent)
            ==> choice_of(path, json) == Err::<SettingsChoice, ArgError>(
            ArgError::Unreadable(path.id),
        ),
        path.content !is Unknown && (json.content is Unknown || (json.content is Foreign
            && path.content is Absent)) ==> choice_of(path, json) == Err::<
            SettingsChoice,
            ArgError,
        >(ArgError::Unreadable(json.id)),
{
}

} // verus!
