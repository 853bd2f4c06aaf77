use vstd::prelude::*;

verus! {

/// Why an operation was refused. A refused operation changes nothing.
#[derive(Clone, Copy, Debug, PartialEq, Eq, Structural)]
pub enum MatchError {
    /// The registry has not been initialised yet.
    NotInitialized,
    /// `init` was called a second time.
    AlreadyInitialized,
    /// The caller does not hold the role that the operation needs.
    Unauthorized,
    /// No match was ever created under the identifier.
    MatchNotFound,
    /// The match is not in a state from which the operation may move it.
    InvalidStateTransition,
    /// A collaborator registry refused a call that the operation needed.
    DownstreamCallFailed,
}

} // verus!
