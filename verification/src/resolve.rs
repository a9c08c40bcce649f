//! Which editor to launch.
//!
//! The editor is configured by two values, `VISUAL` and `EDITOR`. Reading
//! them from the environment is the caller's part; what they mean is decided
//! here.

use crate::error::EditorError;
use crate::shell_words::{only_blanks, shlex_split};
use vstd::prelude::*;

verus! {

/// The value that configures the editor: `visual` where it is set, else
/// `editor`. The two are never merged.
pub open spec fn configured_value(
    visual: Option<Seq<char>>,
    editor: Option<Seq<char>>,
) -> Option<Seq<char>> {
    if visual is Some {
        visual
    } else {
        editor
    }
}

/// The editor command that a split value stands for. A command has at least
/// one word, the program: a value without words is an error, not "no editor".
pub open spec fn command_of(words: Option<Seq<Seq<char>>>) -> Result<Seq<Seq<char>>, EditorError> {
    match words {
        None => Err(EditorError::ParseFailed),
        Some(words) => if words.len() == 0 {
            Err(EditorError::EmptyCommand)
        } else {
            Ok(words)
        },
    }
}

/// The editor command that the two configured values resolve to.
pub open spec fn resolved_command(
    visual: Option<Seq<char>>,
    editor: Option<Seq<char>>,
) -> Result<Seq<Seq<char>>, EditorError> {
    match configured_value(visual, editor) {
        None => Err(EditorError::MissingEditor),
        Some(value) => command_of(shlex_split(value)),
    }
}

/// Whether `outcome` is `expected`: the same error, or a command of the same
/// words.
pub open spec fn is_outcome(
    outcome: Result<Vec<String>, EditorError>,
    expected: Result<Seq<Seq<char>>, EditorError>,
) -> bool {
    match expected {
        Ok(words) => outcome matches Ok(command) && command.deep_view() == words,
        Err(error) => outcome == Err::<Vec<String>, EditorError>(error),
    }
}

/// Picks the value that configures the editor.
pub fn select_editor_value(visual: Option<String>, editor: Option<String>) -> (value: Option<String>)
    ensures
        value.deep_view() == configured_value(visual.deep_view(), editor.deep_view()),
{
    match visual {
        Some(value) => Some(value),
        None => editor,
    }
}

/// Turns the outcome of splitting into an editor command.
pub fn command_from_words(words: Option<Vec<String>>) -> (outcome: Result<Vec<String>, EditorError>)
    ensures
        is_outcome(outcome, command_of(words.deep_view())),
{
    match words {
        None => Err(EditorError::ParseFailed),
        Some(words) => {
            if words.len() == 0 {
                Err(EditorError::EmptyCommand)
            } else {
                Ok(words)
            }
        },
    }
}

/// Resolves the editor command from the values of `VISUAL` and `EDITOR`,
/// each `None` where the variable is not set or cannot be read.
///
/// `visual` takes precedence. With neither set the outcome is
/// `MissingEditor`; a value that cannot be split is `ParseFailed`; one
/// without words, such as a value of blanks alone, is `EmptyCommand`.
pub fn resolve_editor_command(visual: Option<String>, editor: Option<String>) -> (outcome: Result<
    Vec<String>,
    EditorError,
>)
    ensures
        is_outcome(outcome, resolved_command(visual.deep_view(), editor.deep_view())),
        configured_value(visual.deep_view(), editor.deep_view()) matches Some(value)
            && only_blanks(value) ==> outcome == Err::<Vec<String>, EditorError>(
            EditorError::EmptyCommand,
        ),
{
    match select_editor_value(visual, editor) {
        None => Err(EditorError::MissingEditor),
        Some(value) => command_from_words(shlex::split(value.as_str())),
    }
}

} // verus!
