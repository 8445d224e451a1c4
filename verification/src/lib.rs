//! Client side of a one-shot HTTP-based WebRTC signalling exchange (WHIP-style
//! ingestion). The library accumulates locally generated ICE candidates and a
//! local SDP offer into one composite SDP document, decides when gathering is
//! complete via a one-shot timer event, drives the HTTP POST/DELETE lifecycle
//! of the remote session, and hands the remote answer back to the media
//! engine. All network and timer work is performed by the embedding program;
//! this crate holds the event queue, the SDP accumulator and the session state
//! machine, with their contracts.

pub mod channel;
pub mod driver;
pub mod endpoint;
pub mod errors;
pub mod events;
pub mod laws;
pub mod sdp;
pub mod session;
pub mod settings;
