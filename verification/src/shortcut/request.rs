//! What a shortcut invocation asks for, and how it can be wrong.

use crate::shortcut::stem::{derived_stem, stem_of};
use crate::shortcut::{
    DEFAULT_FONT, FILE_NAME_ERROR, FONTS_REQUEST, INTERMEDIATE_FILE_NAME, NO_FILE_SPECIFIED,
};
use vstd::prelude::*;
use vstd::string::*;

verus! {

/// Why a shortcut conversion did not go through.
///
/// The first two are faults of the arguments and are found before anything
/// is done. Each of the others names the step that failed and carries what
/// the caller reported of it.
#[derive(Debug, Clone, PartialEq, Eq)]
pub enum ShortcutError {
    /// The arguments name no file.
    NoFileSpecified,
    /// The file name has no `.`, so that it has no stem.
    FileNameError,
    /// The fonts could not be listed.
    Fonts(String),
    /// The intermediate file could not be written.
    Write(String),
    /// The compiler failed.
    Compile(String),
    /// The intermediate file could not be removed.
    Remove(String),
    /// The compiler's output could not be given its final name.
    Rename(String),
}

/// A [`ShortcutError`] as a mathematical value.
pub enum ShortcutErrorView {
    NoFileSpecified,
    FileNameError,
    Fonts(Seq<char>),
    Write(Seq<char>),
    Compile(Seq<char>),
    Remove(Seq<char>),
    Rename(Seq<char>),
}

impl View for ShortcutError {
    type V = ShortcutErrorView;

    open spec fn view(&self) -> ShortcutErrorView {
        match self {
            ShortcutError::NoFileSpecified => ShortcutErrorView::NoFileSpecified,
            ShortcutError::FileNameError => ShortcutErrorView::FileNameError,
            ShortcutError::Fonts(m) => ShortcutErrorView::Fonts(m@),
            ShortcutError::Write(m) => ShortcutErrorView::Write(m@),
            ShortcutError::Compile(m) => ShortcutErrorView::Compile(m@),
            ShortcutError::Remove(m) => ShortcutErrorView::Remove(m@),
            ShortcutError::Rename(m) => ShortcutErrorView::Rename(m@),
        }
    }
}

impl ShortcutErrorView {
    /// What the error says: a fixed phrase for a fault of the arguments, and
    /// for a failed step the report of it, unchanged.
    pub open spec fn message(self) -> Seq<char> {
        match self {
            ShortcutErrorView::NoFileSpecified => NO_FILE_SPECIFIED@,
            ShortcutErrorView::FileNameError => FILE_NAME_ERROR@,
            ShortcutErrorView::Fonts(m) => m,
            ShortcutErrorView::Write(m) => m,
            ShortcutErrorView::Compile(m) => m,
            ShortcutErrorView::Remove(m) => m,
            ShortcutErrorView::Rename(m) => m,
        }
    }

    /// Whether the error was found in the arguments, before any step.
    pub open spec fn is_argument_error(self) -> bool {
        self is NoFileSpecified || self is FileNameError
    }
}

impl ShortcutError {
    /// What the error says.
    pub fn message(&self) -> (text: String)
        ensures
            text@ == self@.message(),
    {
        match self {
            ShortcutError::NoFileSpecified => String::from_str(NO_FILE_SPECIFIED),
            ShortcutError::FileNameError => String::from_str(FILE_NAME_ERROR),
            ShortcutError::Fonts(m) => m.clone(),
            ShortcutError::Write(m) => m.clone(),
            ShortcutError::Compile(m) => m.clone(),
            ShortcutError::Remove(m) => m.clone(),
            ShortcutError::Rename(m) => m.clone(),
        }
    }

    /// Whether the error was found in the arguments, before any step.
    pub fn is_argument_error(&self) -> (found: bool)
        ensures
            found == self@.is_argument_error(),
    {
        match self {
            ShortcutError::NoFileSpecified => true,
            ShortcutError::FileNameError => true,
            _ => false,
        }
    }
}

/// What a shortcut invocation asks for.
///
/// `derived_stem` is the part of `input_file_name` before its first `.`. The
/// name `fonts` is no file name and has no `.`: its stem is the name itself,
/// and nothing uses it.
#[derive(Debug, Clone, PartialEq, Eq)]
pub struct ShortcutRequest {
    pub input_file_name: String,
    pub font_name: String,
    pub derived_stem: String,
}

/// A [`ShortcutRequest`] as a mathematical value.
pub struct ShortcutRequestView {
    pub input_file_name: Seq<char>,
    pub font_name: Seq<char>,
    pub derived_stem: Seq<char>,
}

impl View for ShortcutRequest {
    type V = ShortcutRequestView;

    open spec fn view(&self) -> ShortcutRequestView {
        ShortcutRequestView {
            input_file_name: self.input_file_name@,
            font_name: self.font_name@,
            derived_stem: self.derived_stem@,
        }
    }
}

impl ShortcutRequestView {
    /// Whether the request is for the list of fonts, not for a conversion.
    pub open spec fn lists_fonts(self) -> bool {
        self.input_file_name == FONTS_REQUEST@
    }
}

/// What the arguments `args` ask for.
///
/// `args[0]` is the program's name and is not read. `args[1]` is the input
/// file name; without it there is nothing to do. `args[2]`, where present, is
/// the font name. An input name other than `fonts` needs a `.`.
pub open spec fn request_of(args: Seq<Seq<char>>) -> Result<ShortcutRequestView, ShortcutErrorView> {
    if args.len() < 2 {
        Err(ShortcutErrorView::NoFileSpecified)
    } else {
        let input_file_name = args[1];
        let font_name = if args.len() > 2 {
            args[2]
        } else {
            DEFAULT_FONT@
        };
        if input_file_name == FONTS_REQUEST@ {
            Ok(ShortcutRequestView { input_file_name, font_name, derived_stem: input_file_name })
        } else {
            match stem_of(input_file_name) {
                Some(derived_stem) => Ok(
                    ShortcutRequestView { input_file_name, font_name, derived_stem },
                ),
                None => Err(ShortcutErrorView::FileNameError),
            }
        }
    }
}

/// The view of what [`ShortcutRequest::parse`] returns.
pub open spec fn parsed_view(parsed: Result<ShortcutRequest, ShortcutError>) -> Result<
    ShortcutRequestView,
    ShortcutErrorView,
> {
    match parsed {
        Ok(request) => Ok(request@),
        Err(error) => Err(error@),
    }
}

impl ShortcutRequest {
    /// Reads the process arguments `args`, the program's name first.
    pub fn parse(args: &Vec<String>) -> (parsed: Result<ShortcutRequest, ShortcutError>)
        ensures
            parsed_view(parsed) == request_of(args.deep_view()),
    {
        if args.len() < 2 {
            return Err(ShortcutError::NoFileSpecified);
        }
        let input_file_name = args[1].clone();
        let font_name = if args.len() > 2 {
            args[2].clone()
        } else {
            String::from_str(DEFAULT_FONT)
        };
        let stem = derived_stem(input_file_name.as_str());
        let fonts = String::from_str(FONTS_REQUEST);
        if input_file_name == fonts {
            let derived_stem = input_file_name.clone();
            return Ok(ShortcutRequest { input_file_name, font_name, derived_stem });
        }
        match stem {
            Some(derived_stem) => Ok(ShortcutRequest { input_file_name, font_name, derived_stem }),
            None => Err(ShortcutError::FileNameError),
        }
    }

    /// The name of the file that holds the synthesized document while it is
    /// compiled: the same for every request.
    pub fn intermediate_file_name(&self) -> (name: &'static str)
        ensures
            name@ == INTERMEDIATE_FILE_NAME@,
    {
        INTERMEDIATE_FILE_NAME
    }

    /// Whether the request is for the list of fonts, not for a conversion.
    pub fn lists_fonts(&self) -> (listing: bool)
        ensures
            listing == self@.lists_fonts(),
    {
        let fonts = String::from_str(FONTS_REQUEST);
        self.input_file_name == fonts
    }
}

} // verus!
