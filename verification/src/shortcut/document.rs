//! The synthesized document: a fixed text around a font name and a file name.

use crate::shortcut::{DOCUMENT_HEAD, DOCUMENT_NECK, DOCUMENT_TAIL};
use vstd::prelude::*;
use vstd::string::*;

verus! {

/// The text of the document that sets the font `font_name` and renders the
/// Markdown file `input_file_name`: the three fixed parts with the two names
/// between them, each name as it was given.
pub open spec fn document_of(font_name: Seq<char>, input_file_name: Seq<char>) -> Seq<char> {
    DOCUMENT_HEAD@ + font_name + DOCUMENT_NECK@ + input_file_name + DOCUMENT_TAIL@
}

/// Writes out the document that sets the font `font_name` and renders the
/// Markdown file `input_file_name`.
pub fn document(font_name: &str, input_file_name: &str) -> (text: String)
    ensures
        text@ == document_of(font_name@, input_file_name@),
{
    let mut text = String::from_str(DOCUMENT_HEAD);
    text.append(font_name);
    text.append(DOCUMENT_NECK);
    text.append(input_file_name);
    text.append(DOCUMENT_TAIL);
    text
}

} // verus!
