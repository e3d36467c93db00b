//! What a streaming walk does with each child of a directory it reads.

use vstd::prelude::*;

use crate::finder::FinderError;
use crate::outside::{regex_compiles, regex_finds, regex_search};
use crate::text::{starts_with_char, str_starts_with_char};

verus! {

/// What becomes of one child of a directory.
#[derive(Debug, PartialEq, Copy, Clone, Eq, Structural)]
pub enum ChildAction {
    /// A directory to read later.
    Visit,
    /// A file to hand out.
    Keep,
    /// A hidden directory, or a file whose name does not match.
    Skip,
}

/// The rule: directories are read later unless hidden (their name begins with
/// `.`); files are handed out when their name matches.
pub open spec fn child_action_rule(name: Seq<char>, is_dir: bool, name_matches: bool) -> ChildAction {
    if is_dir {
        if starts_with_char(name, '.') {
            ChildAction::Skip
        } else {
            ChildAction::Visit
        }
    } else if name_matches {
        ChildAction::Keep
    } else {
        ChildAction::Skip
    }
}

/// What becomes of a child named `name`, given whether its name matches.
pub fn child_action(name: &str, is_dir: bool, name_matches: bool) -> (a: ChildAction)
    ensures
        a == child_action_rule(name@, is_dir, name_matches),
{
    if is_dir {
        if str_starts_with_char(name, '.') {
            ChildAction::Skip
        } else {
            ChildAction::Visit
        }
    } else if name_matches {
        ChildAction::Keep
    } else {
        ChildAction::Skip
    }
}

/// The regular expression that the streaming walk holds file names against.
pub fn stream_pattern() -> (p: &'static str)
    ensures
        p@ == "minty"@,
{
    "minty"
}

/// What becomes of a child named `name` in the streaming walk, whose file
/// names are held against `stream_pattern`; an error where that pattern does
/// not compile.
pub fn classify_stream_child(name: &str, is_dir: bool) -> (r: Result<ChildAction, FinderError>)
    ensures
        is_dir ==> r == Ok::<ChildAction, FinderError>(child_action_rule(name@, true, false)),
        !is_dir && !regex_compiles("minty"@) ==> r == Err::<ChildAction, FinderError>(
            FinderError::InvalidPattern,
        ),
        !is_dir && regex_compiles("minty"@) ==> r == Ok::<ChildAction, FinderError>(
            child_action_rule(name@, false, regex_finds("minty"@, name@)),
        ),
{
    if is_dir {
        return Ok(child_action(name, true, false));
    }
    match regex_search(stream_pattern(), name) {
        Ok(found) => Ok(child_action(name, false, found)),
        Err(_) => Err(FinderError::InvalidPattern),
    }
}

} // verus!
