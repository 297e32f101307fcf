//! How a step that the caller performed went.

use vstd::prelude::*;

verus! {

/// A caller's report of one step as a mathematical value: `Ok`, or the words
/// of the failure.
pub type Report = Result<(), Seq<char>>;

/// The report that `outcome` stands for.
pub open spec fn outcome_view(outcome: Result<(), String>) -> Report {
    match outcome {
        Ok(_) => Ok(()),
        Err(message) => Err(message@),
    }
}

} // verus!
