//! Why an editor command could not be resolved.

use vstd::prelude::*;

verus! {

/// The ways in which resolving the editor command fails.
#[derive(Debug, Clone, Copy, PartialEq, Eq, Structural)]
pub enum EditorError {
    /// No editor is configured: neither `VISUAL` nor `EDITOR` has a value.
    MissingEditor,
    /// The configured value is not valid shell-quoted text.
    ParseFailed,
    /// The configured value splits into no words at all.
    EmptyCommand,
}

impl EditorError {
    /// The text shown to the user for this error.
    pub open spec fn message_text(self) -> Seq<char> {
        match self {
            EditorError::MissingEditor => "neither VISUAL nor EDITOR is set"@,
            EditorError::ParseFailed => "failed to parse editor command"@,
            EditorError::EmptyCommand => "editor command is empty"@,
        }
    }

    /// Renders the error for display.
    pub fn message(&self) -> (text: String)
        ensures
            text@ == self.message_text(),
    {
        match self {
            EditorError::MissingEditor => "neither VISUAL nor EDITOR is set".to_string(),
            EditorError::ParseFailed => "failed to parse editor command".to_string(),
            EditorError::EmptyCommand => "editor command is empty".to_string(),
        }
    }
}

} // verus!
