//! How text is painted on a terminal, as plain values.
//!
//! The styles themselves are not chosen here: the header of an error line
//! looks as `codespan_reporting` has it by default, and whether a stream gets
//! colour at all is left to `termcolor`, which is told only whether to try.

use vstd::prelude::*;

verus! {

/// A colour of the terminal.
#[derive(Debug, Clone, Copy, PartialEq, Eq, Structural)]
pub enum Colour {
    Black,
    Blue,
    Green,
    Red,
    Cyan,
    Magenta,
    Yellow,
    White,
    Ansi256(u8),
    Rgb(u8, u8, u8),
}

/// How a stretch of text is painted: its colours and its attributes.
#[derive(Debug, Clone, Copy, PartialEq, Eq, Structural)]
pub struct TextStyle {
    pub fg: Option<Colour>,
    pub bg: Option<Colour>,
    pub bold: bool,
    pub intense: bool,
    pub underline: bool,
    pub dimmed: bool,
    pub italic: bool,
    pub reset: bool,
    pub strikethrough: bool,
}

/// Whether a stream is to be written in colour.
#[derive(Debug, Clone, Copy, PartialEq, Eq, Structural)]
pub enum ColourChoice {
    /// Colour, whatever the stream is.
    Always,
    /// Colour by ANSI escape codes, whatever the stream is.
    AlwaysAnsi,
    /// Colour where the surroundings allow it.
    Auto,
    /// No colour.
    Never,
}

/// The style of the header of an error: red, bold and intense, and nothing
/// else.
pub open spec fn error_header() -> TextStyle {
    TextStyle {
        fg: Some(Colour::Red),
        bg: None,
        bold: true,
        intense: true,
        underline: false,
        dimmed: false,
        italic: false,
        reset: true,
        strikethrough: false,
    }
}

/// The colour choice for the error stream: colour is tried where the stream
/// is an interactive terminal, and not used elsewhere.
pub open spec fn colour_choice_of(is_terminal: bool) -> ColourChoice {
    if is_terminal {
        ColourChoice::Auto
    } else {
        ColourChoice::Never
    }
}

/// The colour choice for the error stream, given whether that stream is an
/// interactive terminal.
pub fn colour_choice(is_terminal: bool) -> (choice: ColourChoice)
    ensures
        choice == colour_choice_of(is_terminal),
{
    if is_terminal {
        ColourChoice::Auto
    } else {
        ColourChoice::Never
    }
}

/// Makes the colours of `termcolor` known to the verifier, with the variants
/// and fields that the crate declares, so that a contract can name one.
#[verifier::external_type_specification]
pub struct ExTermColor(termcolor::Color);

/// What a `termcolor::ColorSpec` holds, field by field.
struct ColorSpecFields {
    fg: Option<termcolor::Color>,
    bg: Option<termcolor::Color>,
    bold: bool,
    intense: bool,
    underline: bool,
    dimmed: bool,
    italic: bool,
    reset: bool,
    strikethrough: bool,
}

/// A colour of `termcolor` as a [`Colour`], variant for variant and field
/// for field. `termcolor` keeps one more variant to itself, which stands for
/// no colour.
spec fn plain_colour_of(color: termcolor::Color) -> Option<Colour> {
    match color {
        termcolor::Color::Black => Some(Colour::Black),
        termcolor::Color::Blue => Some(Colour::Blue),
        termcolor::Color::Green => Some(Colour::Green),
        termcolor::Color::Red => Some(Colour::Red),
        termcolor::Color::Cyan => Some(Colour::Cyan),
        termcolor::Color::Magenta => Some(Colour::Magenta),
        termcolor::Color::Yellow => Some(Colour::Yellow),
        termcolor::Color::White => Some(Colour::White),
        termcolor::Color::Ansi256(n) => Some(Colour::Ansi256(n)),
        termcolor::Color::Rgb(r, g, b) => Some(Colour::Rgb(r, g, b)),
        _ => None,
    }
}

/// Converts a colour of `termcolor`.
fn plain_colour(color: termcolor::Color) -> (plain: Option<Colour>)
    ensures
        plain == plain_colour_of(color),
{
    match color {
        termcolor::Color::Black => Some(Colour::Black),
        termcolor::Color::Blue => Some(Colour::Blue),
        termcolor::Color::Green => Some(Colour::Green),
        termcolor::Color::Red => Some(Colour::Red),
        termcolor::Color::Cyan => Some(Colour::Cyan),
        termcolor::Color::Magenta => Some(Colour::Magenta),
        termcolor::Color::Yellow => Some(Colour::Yellow),
        termcolor::Color::White => Some(Colour::White),
        termcolor::Color::Ansi256(n) => Some(Colour::Ansi256(n)),
        termcolor::Color::Rgb(r, g, b) => Some(Colour::Rgb(r, g, b)),
        _ => None,
    }
}

/// Trusted: the field `header_error` of
/// `codespan_reporting::term::Styles::default()`, read out through the
/// getters of `termcolor::ColorSpec`. The contract claims what the
/// documentation of that field gives as its default, "fg:red bold intense",
/// on a specification that `ColorSpec::new` made, which has no other colour
/// or attribute and has `reset` switched on.
#[verifier::external_body]
fn default_error_header() -> (fields: ColorSpecFields)
    ensures
        fields.fg == Some(termcolor::Color::Red),
        fields.bg is None,
        fields.bold,
        fields.intense,
        !fields.underline,
        !fields.dimmed,
        !fields.italic,
        fields.reset,
        !fields.strikethrough,
{
    let spec = codespan_reporting::term::Styles::default().header_error;
    ColorSpecFields {
        fg: spec.fg().copied(),
        bg: spec.bg().copied(),
        bold: spec.bold(),
        intense: spec.intense(),
        underline: spec.underline(),
        dimmed: spec.dimmed(),
        italic: spec.italic(),
        reset: spec.reset(),
        strikethrough: spec.strikethrough(),
    }
}

/// The style in which the header of an error is painted.
pub fn error_header_style() -> (style: TextStyle)
    ensures
        style == error_header(),
{
    let fields = default_error_header();
    let fg = match fields.fg {
        Some(color) => plain_colour(color),
        None => None,
    };
    let bg = match fields.bg {
        Some(color) => plain_colour(color),
        None => None,
    };
    TextStyle {
        fg,
        bg,
        bold: fields.bold,
        intense: fields.intense,
        underline: fields.underline,
        dimmed: fields.dimmed,
        italic: fields.italic,
        reset: fields.reset,
        strikethrough: fields.strikethrough,
    }
}

} // verus!
