//! The shortcut conversion: from a bare file name to a PDF.
//!
//! Invoked with a file name and, optionally, a font name, the tool writes a
//! small document that renders the named Markdown file, compiles it, and
//! leaves `<stem>.pdf` behind. This module holds every decision of that path:
//! how the arguments are read ([`ShortcutRequest::parse`]), what the document
//! says ([`document`]), and which step follows which ([`Shortcut`]). The
//! caller performs each step and reports how it went.

use vstd::prelude::*;

pub mod document;
pub mod laws;
pub mod request;
pub mod stem;
pub mod steps;

verus! {

/// The font that the synthesized document sets when none is asked for.
pub const DEFAULT_FONT: &'static str = "HYKaiTiJ";

/// The name of the file that holds the synthesized document while it is compiled.
pub const INTERMEDIATE_FILE_NAME: &'static str = "typst_inner_proc_intermediate_file";

/// The one input name that is no file: it asks for the list of fonts.
pub const FONTS_REQUEST: &'static str = "fonts";

/// What is appended to the stem to name the finished document.
pub const PDF_SUFFIX: &'static str = ".pdf";

/// The synthesized document up to the font name.
pub const DOCUMENT_HEAD: &'static str =
    "\n        #import \"@preview/cmarker:0.1.0\"\n        #set text(font: \"";

/// The synthesized document between the font name and the input file name.
pub const DOCUMENT_NECK: &'static str = "\")\n        #cmarker.render(read(\"";

/// The synthesized document after the input file name.
pub const DOCUMENT_TAIL: &'static str = "\"))\n    ";

/// What the error for a missing file name says.
pub const NO_FILE_SPECIFIED: &'static str = "no file specified";

/// What the error for a file name without a `.` says.
pub const FILE_NAME_ERROR: &'static str = "file name error";

} // verus!
