//! One run of the tool in full mode: from the parsed command to the exit
//! status.
//!
//! A [`Session`] asks its caller for one thing at a time: to set up tracing,
//! to show a warning, to invoke the subsystem that serves the command, to
//! show an error, and at last to leave with an exit status. The caller does
//! what it is asked and answers with an [`Event`]. Tracing that does not
//! start costs a warning and nothing else. The subsystem's result is taken as
//! it is: a failure marks the exit status and is shown once, and the session
//! still ends in an orderly exit. Only when the error itself cannot be shown
//! does the session give up.

use crate::command::Collaborator;
use crate::exit::ExitStatus;
use crate::outcome::{outcome_view, Report};
use crate::report::{
    error_line, error_line_of, tracing_warning, tracing_warning_of, ErrorLine, ErrorLineView,
};
use crate::update::{update, SelfUpdate, SELF_UPDATE_DISABLED};
use vstd::prelude::*;
use vstd::string::*;

pub mod laws;

verus! {

/// What is said when an error could not be shown, up to the cause.
pub const REPORT_FAILED: &'static str = "failed to print error: ";

/// What the caller reports back.
#[derive(Debug, PartialEq, Eq)]
pub enum Event {
    /// Tracing was set up, or was not asked for.
    TracingReady,
    /// Tracing could not be set up, for this reason.
    TracingFailed(String),
    /// The warning was shown.
    Warned,
    /// The subsystem returned this.
    Completed(Result<(), String>),
    /// The error line was written.
    Reported,
    /// The error line could not be written, for this reason.
    ReportFailed(String),
}

/// An [`Event`] as a mathematical value.
pub enum EventView {
    TracingReady,
    TracingFailed(Seq<char>),
    Warned,
    Completed(Report),
    Reported,
    ReportFailed(Seq<char>),
}

impl View for Event {
    type V = EventView;

    open spec fn view(&self) -> EventView {
        match self {
            Event::TracingReady => EventView::TracingReady,
            Event::TracingFailed(cause) => EventView::TracingFailed(cause@),
            Event::Warned => EventView::Warned,
            Event::Completed(result) => EventView::Completed(outcome_view(*result)),
            Event::Reported => EventView::Reported,
            Event::ReportFailed(cause) => EventView::ReportFailed(cause@),
        }
    }
}

/// What the caller is to do next.
#[derive(Debug, Clone, PartialEq, Eq)]
pub enum Action {
    /// Set up tracing, and keep it up until the process ends.
    SetUpTracing,
    /// Show this warning on the error stream, and go on.
    Warn(String),
    /// Invoke this subsystem with the command's parameters.
    Invoke(Collaborator),
    /// Write this line to the error stream.
    Report(ErrorLine),
    /// Leave with this exit status.
    Exit(ExitStatus),
    /// Give up at once, saying this.
    Abort(String),
    /// Nothing: the session did not wait for this event.
    Idle,
}

/// An [`Action`] as a mathematical value.
pub enum ActionView {
    SetUpTracing,
    Warn(Seq<char>),
    Invoke(Collaborator),
    Report(ErrorLineView),
    Exit(ExitStatus),
    Abort(Seq<char>),
    Idle,
}

impl View for Action {
    type V = ActionView;

    open spec fn view(&self) -> ActionView {
        match self {
            Action::SetUpTracing => ActionView::SetUpTracing,
            Action::Warn(warning) => ActionView::Warn(warning@),
            Action::Invoke(collaborator) => ActionView::Invoke(*collaborator),
            Action::Report(line) => ActionView::Report(line@),
            Action::Exit(status) => ActionView::Exit(*status),
            Action::Abort(words) => ActionView::Abort(words@),
            Action::Idle => ActionView::Idle,
        }
    }
}

/// What a session waits for.
#[derive(Debug, Clone, Copy, PartialEq, Eq, Structural)]
pub enum Phase {
    /// For tracing to be set up.
    Tracing,
    /// For the warning to be shown.
    Warning,
    /// For the subsystem to return.
    Running,
    /// For the error line to be written.
    Reporting,
    /// For nothing.
    Finished,
}

/// One run of the tool in full mode.
#[derive(Debug, Clone, Copy, PartialEq, Eq, Structural)]
pub struct Session {
    /// What the session waits for.
    pub phase: Phase,
    /// The subsystem that serves the command.
    pub target: Collaborator,
    /// Whether the executable can update itself.
    pub self_update: SelfUpdate,
    /// The exit status so far.
    pub exit: ExitStatus,
}

impl Session {
    /// A new session, and what it asks for first: tracing.
    pub open spec fn begin(target: Collaborator, self_update: SelfUpdate) -> (Session, ActionView) {
        (
            Session { phase: Phase::Tracing, target, self_update, exit: ExitStatus::Success },
            ActionView::SetUpTracing,
        )
    }

    /// Whether the session answers the command itself: it does so for the
    /// update command of an executable that cannot update itself.
    pub open spec fn serves_itself(self) -> bool {
        self.target == Collaborator::Update && self.self_update == SelfUpdate::Disabled
    }

    /// The session takes the result of the command. After success it asks to
    /// leave, with the exit status as it is. A failure marks the exit status,
    /// and the session asks for the error to be shown, in the words that came
    /// with it.
    pub open spec fn conclude(self, result: Report) -> (Session, ActionView) {
        match result {
            Ok(_) => (Session { phase: Phase::Finished, ..self }, ActionView::Exit(self.exit)),
            Err(message) => (
                Session { phase: Phase::Reporting, exit: ExitStatus::Failure, ..self },
                ActionView::Report(error_line_of(message)),
            ),
        }
    }

    /// The session turns to the command. Where it answers the command itself,
    /// the result is there at once: the failure of [`update`]. Else it asks
    /// for the subsystem that serves the command, and for no other.
    pub open spec fn launch(self) -> (Session, ActionView) {
        if self.serves_itself() {
            self.conclude(Err(SELF_UPDATE_DISABLED@))
        } else {
            (Session { phase: Phase::Running, ..self }, ActionView::Invoke(self.target))
        }
    }

    /// The session takes the event `event`, and asks for what follows. An
    /// event that it did not wait for changes nothing.
    pub open spec fn next(self, event: EventView) -> (Session, ActionView) {
        match (self.phase, event) {
            (Phase::Tracing, EventView::TracingReady) => self.launch(),
            (Phase::Tracing, EventView::TracingFailed(cause)) => (
                Session { phase: Phase::Warning, ..self },
                ActionView::Warn(tracing_warning_of(cause)),
            ),
            (Phase::Warning, EventView::Warned) => self.launch(),
            (Phase::Running, EventView::Completed(result)) => self.conclude(result),
            (Phase::Reporting, EventView::Reported) => (
                Session { phase: Phase::Finished, ..self },
                ActionView::Exit(self.exit),
            ),
            (Phase::Reporting, EventView::ReportFailed(cause)) => (
                Session { phase: Phase::Finished, ..self },
                ActionView::Abort(REPORT_FAILED@ + cause),
            ),
            _ => (self, ActionView::Idle),
        }
    }

    /// Begins a session for the command that `target` serves, in an
    /// executable that can or cannot update itself, and says what to do
    /// first.
    pub fn start(target: Collaborator, self_update: SelfUpdate) -> (begun: (Session, Action))
        ensures
            (begun.0, begun.1@) == Session::begin(target, self_update),
    {
        (
            Session { phase: Phase::Tracing, target, self_update, exit: ExitStatus::new() },
            Action::SetUpTracing,
        )
    }

    /// Takes the caller's report, and says what to do next.
    pub fn step(self, event: Event) -> (next: (Session, Action))
        ensures
            (next.0, next.1@) == self.next(event@),
    {
        match (self.phase, event) {
            (Phase::Tracing, Event::TracingReady) => self.turn_to_command(),
            (Phase::Tracing, Event::TracingFailed(cause)) => (
                Session { phase: Phase::Warning, ..self },
                Action::Warn(tracing_warning(cause.as_str())),
            ),
            (Phase::Warning, Event::Warned) => self.turn_to_command(),
            (Phase::Running, Event::Completed(result)) => self.take_result(result),
            (Phase::Reporting, Event::Reported) => (
                Session { phase: Phase::Finished, ..self },
                Action::Exit(self.exit),
            ),
            (Phase::Reporting, Event::ReportFailed(cause)) => {
                let mut words = String::from_str(REPORT_FAILED);
                words.append(cause.as_str());
                (Session { phase: Phase::Finished, ..self }, Action::Abort(words))
            },
            _ => (self, Action::Idle),
        }
    }

    /// Whether the session waits for nothing more.
    pub fn is_finished(&self) -> (finished: bool)
        ensures
            finished == (self.phase == Phase::Finished),
    {
        match self.phase {
            Phase::Finished => true,
            _ => false,
        }
    }

    fn turn_to_command(self) -> (next: (Session, Action))
        ensures
            (next.0, next.1@) == self.launch(),
    {
        let serves_itself = match (self.target, self.self_update) {
            (Collaborator::Update, SelfUpdate::Disabled) => true,
            _ => false,
        };
        if serves_itself {
            let result = update(&());
            self.take_result(result)
        } else {
            (Session { phase: Phase::Running, ..self }, Action::Invoke(self.target))
        }
    }

    fn take_result(self, result: Result<(), String>) -> (next: (Session, Action))
        ensures
            (next.0, next.1@) == self.conclude(outcome_view(result)),
    {
        match result {
            Ok(_) => (Session { phase: Phase::Finished, ..self }, Action::Exit(self.exit)),
            Err(message) => {
                let mut exit = self.exit;
                exit.set_failed();
                (
                    Session { phase: Phase::Reporting, exit, ..self },
                    Action::Report(error_line(message.as_str())),
                )
            },
        }
    }
}

} // verus!
