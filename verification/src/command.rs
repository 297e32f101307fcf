//! The commands of the tool, and the subsystem that serves each.

use vstd::prelude::*;

verus! {

/// A subsystem that carries out a command.
#[derive(Debug, Clone, Copy, PartialEq, Eq, Structural)]
pub enum Collaborator {
    Compile,
    Watch,
    Query,
    Fonts,
    Update,
}

/// What the tool was invoked to do. Each command carries the parameters of
/// the subsystem that serves it; what they hold is that subsystem's affair.
#[derive(Debug, Clone, PartialEq, Eq)]
pub enum Command<C, W, Q, F, U> {
    Compile(C),
    Watch(W),
    Query(Q),
    Fonts(F),
    Update(U),
}

impl<C, W, Q, F, U> Command<C, W, Q, F, U> {
    /// The subsystem that serves the command: for each command its own.
    pub open spec fn collaborator(&self) -> Collaborator {
        match self {
            Command::Compile(_) => Collaborator::Compile,
            Command::Watch(_) => Collaborator::Watch,
            Command::Query(_) => Collaborator::Query,
            Command::Fonts(_) => Collaborator::Fonts,
            Command::Update(_) => Collaborator::Update,
        }
    }

    /// Picks the subsystem that serves the command.
    pub fn route(&self) -> (collaborator: Collaborator)
        ensures
            collaborator == self.collaborator(),
    {
        match self {
            Command::Compile(_) => Collaborator::Compile,
            Command::Watch(_) => Collaborator::Watch,
            Command::Query(_) => Collaborator::Query,
            Command::Fonts(_) => Collaborator::Fonts,
            Command::Update(_) => Collaborator::Update,
        }
    }
}

/// Commands of different kinds are served by different subsystems, and
/// commands of one kind by the same, whatever their parameters are.
pub proof fn law_each_command_has_its_collaborator<C, W, Q, F, U>(
    one: Command<C, W, Q, F, U>,
    other: Command<C, W, Q, F, U>,
)
    ensures
        one.collaborator() == other.collaborator() <==> (one is Compile && other is Compile) || (one
            is Watch && other is Watch) || (one is Query && other is Query) || (one is Fonts
            && other is Fonts) || (one is Update && other is Update),
{
}

} // verus!
