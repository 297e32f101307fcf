//! Command orchestration for a document-processing command-line tool.
//!
//! The crate decides; its caller performs. Every step that touches the
//! outside world (the file system, the standard streams, the compiler and its
//! sibling subsystems) is handed to the caller as an action, and the caller
//! hands back what came of it. What the tool does with a given invocation is
//! therefore a function of plain values, and each such function carries a
//! verified contract.
//!
//! * [`shortcut`] turns a bare file name into the steps that render it to PDF.
//! * [`session`] runs one parsed command and settles the exit status.
//! * [`command`] names the commands and the subsystem that serves each.
//! * [`report`] words the diagnostics; [`style`] says how they are painted.
//! * [`exit`] holds the exit status; [`update`] answers for a missing updater.

use crate::command::Command;
use crate::session::{Action, Session};
use crate::update::SelfUpdate;
use vstd::prelude::*;

pub mod command;
pub mod exit;
pub mod outcome;
pub mod report;
pub mod session;
pub mod shortcut;
pub mod style;
pub mod update;

verus! {

/// Entry point of the full tool: begins the run of the parsed command
/// `command`, in an executable that can or cannot update itself, and says
/// what to do first. The command is routed here, once, and the session keeps
/// to the subsystem that it was routed to.
pub fn origin_main<C, W, Q, F, U>(command: &Command<C, W, Q, F, U>, self_update: SelfUpdate) -> (begun:
    (Session, Action))
    ensures
        (begun.0, begun.1@) == Session::begin(command.collaborator(), self_update),
{
    Session::start(command.route(), self_update)
}

/// The version string that the argument parser shows when asked for the
/// version: the one that was fixed when the executable was built, unchanged.
pub fn typst_version(build_version: &'static str) -> (version: &'static str)
    ensures
        version@ == build_version@,
{
    build_version
}

} // verus!
