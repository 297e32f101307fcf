//! The wording of what is shown to the user on the error stream.

use crate::style::{error_header, error_header_style, TextStyle};
use vstd::prelude::*;
use vstd::string::*;

verus! {

/// The header of an error line.
pub const ERROR_LABEL: &'static str = "error";

/// What stands between the header of an error line and the message.
pub const ERROR_SEPARATOR: &'static str = ": ";

/// What ends an error line: a full stop and the line terminator.
pub const ERROR_END: &'static str = ".\n";

/// The warning for a tracing backend that did not start, up to the cause.
pub const TRACING_WARNING_HEAD: &'static str = "failed to initialize tracing (";

/// The warning for a tracing backend that did not start, after the cause.
pub const TRACING_WARNING_TAIL: &'static str = ")";

/// One line that reports an error: a header, painted in `style`, and the rest
/// of the line, unpainted, line terminator included.
#[derive(Debug, Clone, PartialEq, Eq)]
pub struct ErrorLine {
    pub style: TextStyle,
    pub label: String,
    pub rest: String,
}

/// An [`ErrorLine`] as a mathematical value.
pub struct ErrorLineView {
    pub style: TextStyle,
    pub label: Seq<char>,
    pub rest: Seq<char>,
}

impl View for ErrorLine {
    type V = ErrorLineView;

    open spec fn view(&self) -> ErrorLineView {
        ErrorLineView { style: self.style, label: self.label@, rest: self.rest@ }
    }
}

impl ErrorLineView {
    /// The characters of the line, paint apart.
    pub open spec fn text(self) -> Seq<char> {
        self.label + self.rest
    }
}

/// The line that reports the error `message`: the header `error` in the style
/// of an error header, then `: `, the message, a full stop, and the line
/// terminator.
pub open spec fn error_line_of(message: Seq<char>) -> ErrorLineView {
    ErrorLineView {
        style: error_header(),
        label: ERROR_LABEL@,
        rest: ERROR_SEPARATOR@ + message + ERROR_END@,
    }
}

/// The warning for a tracing backend that did not start for the reason
/// `cause`.
pub open spec fn tracing_warning_of(cause: Seq<char>) -> Seq<char> {
    TRACING_WARNING_HEAD@ + cause + TRACING_WARNING_TAIL@
}

/// Words an application-level error, one that belongs to no source file, as
/// one line for the error stream.
pub fn error_line(message: &str) -> (line: ErrorLine)
    ensures
        line@ == error_line_of(message@),
{
    let mut rest = String::from_str(ERROR_SEPARATOR);
    rest.append(message);
    rest.append(ERROR_END);
    ErrorLine { style: error_header_style(), label: String::from_str(ERROR_LABEL), rest }
}

/// Words the warning for a tracing backend that did not start for the reason
/// `cause`. The line terminator is left to the caller.
pub fn tracing_warning(cause: &str) -> (warning: String)
    ensures
        warning@ == tracing_warning_of(cause@),
{
    let mut warning = String::from_str(TRACING_WARNING_HEAD);
    warning.append(cause);
    warning.append(TRACING_WARNING_TAIL);
    warning
}

impl ErrorLine {
    /// The characters of the line, paint apart.
    pub fn text(&self) -> (text: String)
        ensures
            text@ == self@.text(),
    {
        let mut text = self.label.clone();
        text.append(self.rest.as_str());
        text
    }
}

/// An error line reads `error: `, the message, a full stop and the line
/// terminator, whatever the message is.
pub proof fn law_error_line_text(message: Seq<char>)
    ensures
        error_line_of(message).text() == ERROR_LABEL@ + ERROR_SEPARATOR@ + message + ERROR_END@,
        error_line_of(message).style == error_header(),
{
    assert(ERROR_LABEL@ + (ERROR_SEPARATOR@ + message + ERROR_END@) =~= ERROR_LABEL@
        + ERROR_SEPARATOR@ + message + ERROR_END@);
}

} // verus!
