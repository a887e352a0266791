//! Status values reported by the resolvers.
use vstd::prelude::*;

verus! {

/// Two-valued status of an operation.
#[derive(Clone, Copy, Debug, PartialEq, Eq, Structural)]
pub enum ErrState {
    Success,
    Failure,
}

/// A recoverable failure: end of a list, a name not found, a name that does not decode.
#[derive(Debug)]
pub struct PEErr {
    pub status: ErrState,
    pub message: String,
}

impl PEErr {
    /// A failure carrying `message`.
    pub fn failure(message: &str) -> (r: PEErr)
        ensures
            r.status == ErrState::Failure,
            r.message@ == message@,
    {
        PEErr { status: ErrState::Failure, message: message.to_owned() }
    }
}

} // verus!
