//! The message units a session exchanges with its peer, and the reaction a
//! session hands back to the transport after each event.

use vstd::prelude::*;

verus! {

/// Why a connection is being closed: a status code and an optional
/// human-readable description. The session never inspects a reason; it only
/// echoes the peer's reason back on shutdown.
#[derive(Debug, PartialEq, Eq, Clone)]
pub struct CloseReason {
    pub code: u16,
    pub description: Option<String>,
}

/// One discrete message unit delivered over the upgraded connection, with
/// framing and control-frame parsing already done by the transport.
#[derive(Debug, PartialEq, Eq, Clone)]
pub enum Frame {
    /// A liveness probe; the receiver answers with a `Pong` carrying the
    /// same payload.
    Ping(Vec<u8>),
    /// The answer to a `Ping`.
    Pong(Vec<u8>),
    /// A text payload, given as its UTF-8 string.
    Text(String),
    /// An opaque binary payload.
    Binary(Vec<u8>),
    /// A close handshake frame, with the peer's reason if it gave one.
    Close(Option<CloseReason>),
}

/// What the session asks the transport to do after one event: write at most
/// one frame, and possibly begin tearing the connection down.
#[derive(Debug, PartialEq, Eq)]
pub struct Reaction {
    /// The single outbound frame this event produced, if any.
    pub reply: Option<Frame>,
    /// True when the session has left its active phase on this event and
    /// the transport must cancel the heartbeat timer and release the
    /// connection.
    pub terminate: bool,
}

} // verus!
