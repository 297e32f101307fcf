//! The steps of a shortcut conversion, one at a time.
//!
//! A [`Shortcut`] knows which step is under way. [`Shortcut::start`] gives the
//! first step; the caller performs it and reports to [`Shortcut::step`], which
//! gives the next. The first failure ends the conversion: no later step is
//! asked for, so a failed compilation leaves the intermediate file where it
//! was written.

use crate::outcome::{outcome_view, Report};
use crate::shortcut::document::{document, document_of};
use crate::shortcut::request::{
    request_of, ShortcutError, ShortcutErrorView, ShortcutRequest, ShortcutRequestView,
};
use crate::shortcut::{INTERMEDIATE_FILE_NAME, PDF_SUFFIX};
use vstd::prelude::*;
use vstd::string::*;

verus! {

/// The format that the compiler is asked for.
#[derive(Debug, Clone, Copy, PartialEq, Eq, Structural)]
pub enum OutputFormat {
    Pdf,
}

/// What the compiler is asked to do. Whatever else it can be told keeps its
/// default.
#[derive(Debug, Clone, PartialEq, Eq)]
pub struct CompileRequest {
    /// The path of the source file.
    pub input: String,
    /// The path of the compiled document.
    pub output: String,
    /// The format of the compiled document.
    pub format: OutputFormat,
}

/// A [`CompileRequest`] as a mathematical value.
pub struct CompileRequestView {
    pub input: Seq<char>,
    pub output: Seq<char>,
    pub format: OutputFormat,
}

impl View for CompileRequest {
    type V = CompileRequestView;

    open spec fn view(&self) -> CompileRequestView {
        CompileRequestView { input: self.input@, output: self.output@, format: self.format }
    }
}

/// What the caller is to do next.
#[derive(Debug, PartialEq, Eq)]
pub enum ShortcutAction {
    /// List the fonts, with every parameter at its default.
    ListFonts,
    /// Write `contents` to the file `path`.
    WriteFile { path: String, contents: String },
    /// Run the compiler.
    Compile(CompileRequest),
    /// Delete the file `path`.
    RemoveFile { path: String },
    /// Give the file `from` the name `to`.
    RenameFile { from: String, to: String },
    /// The conversion is over: end with this result.
    Finish(Result<(), ShortcutError>),
    /// Nothing: the conversion was over before this report came.
    Idle,
}

/// A [`ShortcutAction`] as a mathematical value.
pub enum ShortcutActionView {
    ListFonts,
    WriteFile { path: Seq<char>, contents: Seq<char> },
    Compile(CompileRequestView),
    RemoveFile { path: Seq<char> },
    RenameFile { from: Seq<char>, to: Seq<char> },
    Finish(Result<(), ShortcutErrorView>),
    Idle,
}

impl View for ShortcutAction {
    type V = ShortcutActionView;

    open spec fn view(&self) -> ShortcutActionView {
        match self {
            ShortcutAction::ListFonts => ShortcutActionView::ListFonts,
            ShortcutAction::WriteFile { path, contents } => ShortcutActionView::WriteFile {
                path: path@,
                contents: contents@,
            },
            ShortcutAction::Compile(request) => ShortcutActionView::Compile(request@),
            ShortcutAction::RemoveFile { path } => ShortcutActionView::RemoveFile { path: path@ },
            ShortcutAction::RenameFile { from, to } => ShortcutActionView::RenameFile {
                from: from@,
                to: to@,
            },
            ShortcutAction::Finish(Ok(_)) => ShortcutActionView::Finish(Ok(())),
            ShortcutAction::Finish(Err(error)) => ShortcutActionView::Finish(Err(error@)),
            ShortcutAction::Idle => ShortcutActionView::Idle,
        }
    }
}

impl ShortcutActionView {
    /// Whether performing the action can create, change, rename or delete a
    /// file.
    pub open spec fn touches_files(self) -> bool {
        self is WriteFile || self is Compile || self is RemoveFile || self is RenameFile
    }
}

/// Where a shortcut conversion stands: the step that the caller was last
/// asked to perform, or `Finished`.
#[derive(Debug, Clone, PartialEq, Eq)]
pub enum Shortcut {
    /// The fonts are being listed.
    Listing,
    /// The intermediate file is being written.
    Writing(ShortcutRequest),
    /// The compiler is running.
    Compiling(ShortcutRequest),
    /// The intermediate file is being removed.
    Removing(ShortcutRequest),
    /// The compiler's output is being renamed.
    Renaming(ShortcutRequest),
    /// Nothing is left to do.
    Finished,
}

/// A [`Shortcut`] as a mathematical value.
pub enum ShortcutView {
    Listing,
    Writing(ShortcutRequestView),
    Compiling(ShortcutRequestView),
    Removing(ShortcutRequestView),
    Renaming(ShortcutRequestView),
    Finished,
}

impl View for Shortcut {
    type V = ShortcutView;

    open spec fn view(&self) -> ShortcutView {
        match self {
            Shortcut::Listing => ShortcutView::Listing,
            Shortcut::Writing(request) => ShortcutView::Writing(request@),
            Shortcut::Compiling(request) => ShortcutView::Compiling(request@),
            Shortcut::Removing(request) => ShortcutView::Removing(request@),
            Shortcut::Renaming(request) => ShortcutView::Renaming(request@),
            Shortcut::Finished => ShortcutView::Finished,
        }
    }
}

/// The name under which the finished document is left: the stem and `.pdf`.
pub open spec fn final_name_of(stem: Seq<char>) -> Seq<char> {
    stem + PDF_SUFFIX@
}

/// The first step for a request: to list the fonts where it asks for that,
/// else to write the synthesized document to the intermediate file.
pub open spec fn begin_step(request: ShortcutRequestView) -> (ShortcutView, ShortcutActionView) {
    if request.lists_fonts() {
        (ShortcutView::Listing, ShortcutActionView::ListFonts)
    } else {
        (
            ShortcutView::Writing(request),
            ShortcutActionView::WriteFile {
                path: INTERMEDIATE_FILE_NAME@,
                contents: document_of(request.font_name, request.input_file_name),
            },
        )
    }
}

/// The first step for the process arguments `args`: where they are at fault,
/// to end with the error, before anything is done.
pub open spec fn first_step(args: Seq<Seq<char>>) -> (ShortcutView, ShortcutActionView) {
    match request_of(args) {
        Ok(request) => begin_step(request),
        Err(error) => (ShortcutView::Finished, ShortcutActionView::Finish(Err(error))),
    }
}

/// The step that follows when the step under way in `state` has gone as
/// `outcome` says.
///
/// After a success: the compiler runs on the intermediate file and writes to
/// the stem; the intermediate file is removed; the output gets its final
/// name; the conversion ends well. After a failure the conversion ends with
/// an error that names the step. Once it is over, nothing follows.
pub open spec fn next_step(state: ShortcutView, outcome: Report) -> (ShortcutView, ShortcutActionView) {
    match (state, outcome) {
        (ShortcutView::Listing, Ok(_)) => (
            ShortcutView::Finished,
            ShortcutActionView::Finish(Ok(())),
        ),
        (ShortcutView::Listing, Err(m)) => (
            ShortcutView::Finished,
            ShortcutActionView::Finish(Err(ShortcutErrorView::Fonts(m))),
        ),
        (ShortcutView::Writing(request), Ok(_)) => (
            ShortcutView::Compiling(request),
            ShortcutActionView::Compile(
                CompileRequestView {
                    input: INTERMEDIATE_FILE_NAME@,
                    output: request.derived_stem,
                    format: OutputFormat::Pdf,
                },
            ),
        ),
        (ShortcutView::Writing(_), Err(m)) => (
            ShortcutView::Finished,
            ShortcutActionView::Finish(Err(ShortcutErrorView::Write(m))),
        ),
        (ShortcutView::Compiling(request), Ok(_)) => (
            ShortcutView::Removing(request),
            ShortcutActionView::RemoveFile { path: INTERMEDIATE_FILE_NAME@ },
        ),
        (ShortcutView::Compiling(_), Err(m)) => (
            ShortcutView::Finished,
            ShortcutActionView::Finish(Err(ShortcutErrorView::Compile(m))),
        ),
        (ShortcutView::Removing(request), Ok(_)) => (
            ShortcutView::Renaming(request),
            ShortcutActionView::RenameFile {
                from: request.derived_stem,
                to: final_name_of(request.derived_stem),
            },
        ),
        (ShortcutView::Removing(_), Err(m)) => (
            ShortcutView::Finished,
            ShortcutActionView::Finish(Err(ShortcutErrorView::Remove(m))),
        ),
        (ShortcutView::Renaming(_), Ok(_)) => (
            ShortcutView::Finished,
            ShortcutActionView::Finish(Ok(())),
        ),
        (ShortcutView::Renaming(_), Err(m)) => (
            ShortcutView::Finished,
            ShortcutActionView::Finish(Err(ShortcutErrorView::Rename(m))),
        ),
        (ShortcutView::Finished, _) => (ShortcutView::Finished, ShortcutActionView::Idle),
    }
}

impl Shortcut {
    /// Begins the conversion that the process arguments `args` ask for, the
    /// program's name first, and says what to do first.
    pub fn start(args: &Vec<String>) -> (begun: (Shortcut, ShortcutAction))
        ensures
            (begun.0@, begun.1@) == first_step(args.deep_view()),
    {
        match ShortcutRequest::parse(args) {
            Ok(request) => Shortcut::begin(request),
            Err(error) => (Shortcut::Finished, ShortcutAction::Finish(Err(error))),
        }
    }

    /// Begins the conversion that `request` asks for, and says what to do
    /// first.
    pub fn begin(request: ShortcutRequest) -> (begun: (Shortcut, ShortcutAction))
        ensures
            (begun.0@, begun.1@) == begin_step(request@),
    {
        if request.lists_fonts() {
            (Shortcut::Listing, ShortcutAction::ListFonts)
        } else {
            let path = String::from_str(INTERMEDIATE_FILE_NAME);
            let contents = document(request.font_name.as_str(), request.input_file_name.as_str());
            (Shortcut::Writing(request), ShortcutAction::WriteFile { path, contents })
        }
    }

    /// Takes the caller's report of the step under way, and says what to do
    /// next.
    pub fn step(self, outcome: Result<(), String>) -> (next: (Shortcut, ShortcutAction))
        ensures
            (next.0@, next.1@) == next_step(self@, outcome_view(outcome)),
    {
        match (self, outcome) {
            (Shortcut::Listing, Ok(_)) => (Shortcut::Finished, ShortcutAction::Finish(Ok(()))),
            (Shortcut::Listing, Err(m)) => (
                Shortcut::Finished,
                ShortcutAction::Finish(Err(ShortcutError::Fonts(m))),
            ),
            (Shortcut::Writing(request), Ok(_)) => {
                let compile = CompileRequest {
                    input: String::from_str(INTERMEDIATE_FILE_NAME),
                    output: request.derived_stem.clone(),
                    format: OutputFormat::Pdf,
                };
                (Shortcut::Compiling(request), ShortcutAction::Compile(compile))
            },
            (Shortcut::Writing(_), Err(m)) => (
                Shortcut::Finished,
                ShortcutAction::Finish(Err(ShortcutError::Write(m))),
            ),
            (Shortcut::Compiling(request), Ok(_)) => {
                let path = String::from_str(INTERMEDIATE_FILE_NAME);
                (Shortcut::Removing(request), ShortcutAction::RemoveFile { path })
            },
            (Shortcut::Compiling(_), Err(m)) => (
                Shortcut::Finished,
                ShortcutAction::Finish(Err(ShortcutError::Compile(m))),
            ),
            (Shortcut::Removing(request), Ok(_)) => {
                let from = request.derived_stem.clone();
                let to = final_name(request.derived_stem.as_str());
                (Shortcut::Renaming(request), ShortcutAction::RenameFile { from, to })
            },
            (Shortcut::Removing(_), Err(m)) => (
                Shortcut::Finished,
                ShortcutAction::Finish(Err(ShortcutError::Remove(m))),
            ),
            (Shortcut::Renaming(_), Ok(_)) => (Shortcut::Finished, ShortcutAction::Finish(Ok(()))),
            (Shortcut::Renaming(_), Err(m)) => (
                Shortcut::Finished,
                ShortcutAction::Finish(Err(ShortcutError::Rename(m))),
            ),
            (Shortcut::Finished, _) => (Shortcut::Finished, ShortcutAction::Idle),
        }
    }

    /// Whether nothing is left to do.
    pub fn is_finished(&self) -> (finished: bool)
        ensures
            finished == (self@ is Finished),
    {
        match self {
            Shortcut::Finished => true,
            _ => false,
        }
    }
}

/// The name under which the finished document is left: the stem and `.pdf`.
pub fn final_name(stem: &str) -> (name: String)
    ensures
        name@ == final_name_of(stem@),
{
    let mut name = String::from_str(stem);
    name.append(PDF_SUFFIX);
    name
}

} // verus!
