use codespan_reporting::term::Styles;
use typst_cli::style::{colour_choice, error_header_style, Colour, ColourChoice, TextStyle};

#[test]
fn colour_is_tried_on_a_terminal() {
    assert_eq!(colour_choice(true), ColourChoice::Auto);
}

#[test]
fn colour_is_not_used_off_a_terminal() {
    assert_eq!(colour_choice(false), ColourChoice::Never);
}

#[test]
fn the_error_header_is_red_bold_and_intense() {
    let expected = TextStyle {
        fg: Some(Colour::Red),
        bg: None,
        bold: true,
        intense: true,
        underline: false,
        dimmed: false,
        italic: false,
        reset: true,
        strikethrough: false,
    };
    assert_eq!(error_header_style(), expected);
}

#[test]
fn the_error_header_is_the_default_of_the_diagnostics_crate() {
    let theirs = Styles::default().header_error;
    let ours = error_header_style();
    assert_eq!(theirs.fg(), Some(&termcolor::Color::Red));
    assert_eq!(ours.fg, Some(Colour::Red));
    assert_eq!(theirs.bg(), None);
    assert_eq!(ours.bg, None);
    assert_eq!(ours.bold, theirs.bold());
    assert_eq!(ours.intense, theirs.intense());
    assert_eq!(ours.underline, theirs.underline());
    assert_eq!(ours.dimmed, theirs.dimmed());
    assert_eq!(ours.italic, theirs.italic());
    assert_eq!(ours.reset, theirs.reset());
    assert_eq!(ours.strikethrough, theirs.strikethrough());
}
