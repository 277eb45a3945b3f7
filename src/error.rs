use vstd::prelude::*;

verus! {

/// The ways a command can fail. None of them is fatal to the process or to
/// other queues.
#[derive(Debug, Clone, Copy, PartialEq, Eq, Structural)]
pub enum QueueError {
    /// The inbound message is malformed or names an unknown command.
    BadRequest,
    /// An advance was asked for with nothing upcoming.
    EmptyQueue,
    /// The operation refers to a queue id that cannot be resolved.
    NotFound,
    /// The media catalog could not be reached or refused the request.
    UpstreamUnavailable,
}

} // verus!
