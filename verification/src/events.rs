//! Signalling events carried from the producers (media engine callbacks and
//! the gather timer) to the session driver, and their mathematical view.

use vstd::prelude::*;

verus! {

/// One signalling event. Immutable once constructed; ownership moves from the
/// producer through the event channel to the session driver.
#[derive(Debug)]
pub enum WhipMessage {
    /// A locally gathered ICE candidate for the peer.
    Ice { id: String, candidate: String, candix: u32 },
    /// The local SDP offer for the peer.
    Sdp { id: String, sdp: String },
    /// The media engine removed the peer: tear the session down.
    ConsumerRemoved { id: String },
    /// The one-shot gather-completion timer fired for the peer.
    GatherTimeout { id: String },
}

/// The mathematical value of a `WhipMessage`: the same variants over
/// character sequences.
pub enum EventView {
    Ice { id: Seq<char>, candidate: Seq<char>, candix: u32 },
    Sdp { id: Seq<char>, sdp: Seq<char> },
    ConsumerRemoved { id: Seq<char> },
    GatherTimeout { id: Seq<char> },
}

impl View for WhipMessage {
    type V = EventView;

    open spec fn view(&self) -> EventView {
        match self {
            WhipMessage::Ice { id, candidate, candix } => EventView::Ice {
                id: id@,
                candidate: candidate@,
                candix: *candix,
            },
            WhipMessage::Sdp { id, sdp } => EventView::Sdp { id: id@, sdp: sdp@ },
            WhipMessage::ConsumerRemoved { id } => EventView::ConsumerRemoved { id: id@ },
            WhipMessage::GatherTimeout { id } => EventView::GatherTimeout { id: id@ },
        }
    }
}

} // verus!
