//! The errors that a poll can end with.

use vstd::prelude::*;

verus! {

/// Why a poll could not be carried through.
#[derive(Debug, Clone, Copy, PartialEq, Eq, Structural)]
pub enum NotifyError {
    /// The bytes are not a JSON object, or a field that the game state reads
    /// holds a value of another type.
    MalformedResponse,
    /// A full turn is required, but no faction is marked as active.
    ConsistencyError,
    /// The webhook answered with a status outside the success range.
    DispatchFailure { status: u16 },
    /// An event arrived that the poll was not waiting for.
    UnexpectedEvent,
}

} // verus!
