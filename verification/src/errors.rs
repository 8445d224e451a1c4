//! Error kinds reported to the media engine's error callback.

use vstd::prelude::*;

verus! {

/// Everything that can go wrong while driving one signalling session.
///
/// All of these are funneled to the media engine's error callback by the
/// embedding program; none of them terminates the consumer loop.
#[derive(Clone, Copy, Debug, PartialEq, Eq, Structural)]
pub enum SignallerError {
    /// The required remote ingestion endpoint is not configured. Fatal: no
    /// session starts.
    ConfigurationMissing,
    /// An event could not be enqueued (backpressure or shutdown race). The
    /// session is aborted by the caller.
    ChannelSendFailed,
    /// A network or I/O failure on the POST or DELETE, or an endpoint that is
    /// not a valid URL. Not retried.
    TransportFailure,
    /// The POST returned a status other than 201; carries the status code.
    UnexpectedStatus(u16),
    /// The POST response body did not parse as an SDP answer.
    MalformedAnswer,
    /// A background task did not terminate cleanly during stop. Reported as a
    /// warning only: stop still completes.
    JoinFailure,
}

} // verus!
