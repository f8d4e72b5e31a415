//! The failures that a worker handle reports.

use vstd::prelude::*;

verus! {

/// Why an operation on a worker failed.
///
/// A task cannot be submitted before the handshake is over, because no handle
/// exists until then: that failure has no value here.
#[derive(Clone, Copy, Debug, PartialEq, Eq, Structural)]
pub enum WorkerError {
    /// The context could not be spawned.
    CreationFailure,
    /// A task was submitted while another was in flight. It is rejected, never queued.
    Busy,
    /// The handle had been terminated.
    TerminatedUse,
    /// A message could not be decoded in the encoding that was asked for.
    DecodeFailure,
    /// The module in the context exports no task of the name that was asked for.
    DispatchLookupFailure,
    /// The transport could not post the envelope.
    TransportFailure,
}

} // verus!
