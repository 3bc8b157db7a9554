//! How a machine refuses what it cannot use.

use vstd::prelude::*;

verus! {

/// Why a machine refused what the runtime reported. A refusal leaves the
/// machine where it was.
#[derive(Clone, Copy, Debug, PartialEq, Eq, Structural)]
pub enum ProtocolError {
    /// The report does not answer the operation that is pending.
    Unexpected,
    /// The machine has ended and accepts nothing.
    Finished,
}

} // verus!
