use typst_cli::report::{error_line, tracing_warning};
use typst_cli::style::error_header_style;

#[test]
fn an_error_line_has_a_header_and_the_message() {
    let line = error_line("file not found");
    assert_eq!(line.label, "error");
    assert_eq!(line.rest, ": file not found.\n");
    assert_eq!(line.style, error_header_style());
}

#[test]
fn an_error_line_reads_as_one_line() {
    assert_eq!(error_line("file not found").text(), "error: file not found.\n");
}

#[test]
fn an_error_line_for_an_empty_message() {
    let line = error_line("");
    assert_eq!(line.rest, ": .\n");
    assert_eq!(line.text(), "error: .\n");
}

#[test]
fn an_error_line_keeps_the_message_as_it_is() {
    let line = error_line("unknown font \"Zapf\": 1 of 2\nsee --help");
    assert_eq!(line.text(), "error: unknown font \"Zapf\": 1 of 2\nsee --help.\n");
}

#[test]
fn the_tracing_warning_gives_the_cause() {
    assert_eq!(
        tracing_warning("permission denied"),
        "failed to initialize tracing (permission denied)"
    );
    assert_eq!(tracing_warning(""), "failed to initialize tracing ()");
}
