//! The update command of an executable that cannot update itself.

use vstd::prelude::*;
use vstd::string::*;

verus! {

/// What the update command answers where self-updating is not built in.
pub const SELF_UPDATE_DISABLED: &'static str =
    "self-updating is not enabled for this executable, please update with the package manager or mechanism used for initial installation";

/// Whether the executable can update itself.
#[derive(Debug, Clone, Copy, PartialEq, Eq, Structural)]
pub enum SelfUpdate {
    /// It cannot: the update command is answered by [`update`].
    Disabled,
    /// It can: the update command is handed to the updater.
    Enabled,
}

/// The update command where self-updating is not built in: whatever the
/// command's parameters are, it fails, and says where to turn instead.
pub fn update<U>(command: &U) -> (result: Result<(), String>)
    ensures
        result matches Err(message) && message@ == SELF_UPDATE_DISABLED@,
{
    Err(String::from_str(SELF_UPDATE_DISABLED))
}

} // verus!
