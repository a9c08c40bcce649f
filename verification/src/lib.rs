//! Delegating free-form text composition to the user's preferred external
//! editor: which program to launch, with which arguments, and how one edit
//! session proceeds from staging the text to collecting the result.

pub mod error;
pub mod laws;
pub mod resolve;
pub mod session;
pub mod shell_words;
