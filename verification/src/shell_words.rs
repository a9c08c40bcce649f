//! Splitting a command line into words as a POSIX shell would.
//!
//! The splitting itself is done by the `shlex` crate. This module names its
//! result and states what the rest of the library relies on.

use vstd::prelude::*;

verus! {

/// The words that `shlex::split` finds in `text`, or `None` where it finds
/// the text erroneous: ended inside a quotation or right after a backslash.
pub uninterp spec fn shlex_split(text: Seq<char>) -> Option<Seq<Seq<char>>>;

/// Whether `c` separates words: a space, a tab or a newline.
pub open spec fn is_blank(c: char) -> bool {
    c == ' ' || c == '\t' || c == '\n'
}

/// Whether `text` holds nothing but separators; the empty text does.
pub open spec fn only_blanks(text: Seq<char>) -> bool {
    forall|i: int| 0 <= i < text.len() ==> is_blank(#[trigger] text[i])
}

/// `shlex::split` is taken on trust. Its result depends on the text alone and
/// is named `shlex_split`. Of the splitting rules only one is stated: a text
/// made of spaces, tabs and newlines alone is no error and holds no word.
pub assume_specification[ shlex::split ](in_str: &str) -> (words: Option<Vec<String>>)
    ensures
        words.deep_view() == shlex_split(in_str@),
        only_blanks(in_str@) ==> words.deep_view() == Some(Seq::<Seq<char>>::empty()),
;

} // verus!
