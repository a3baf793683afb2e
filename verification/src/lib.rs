//! A verified session state machine for a long-lived bidirectional echo
//! service.
//!
//! Every accepted connection owns one [`session::MyWebSocket`] value. The
//! session echoes text payloads back with a fixed prefix, echoes binary
//! payloads verbatim, and enforces liveness with a periodic ping/pong
//! heartbeat: only ping and pong frames count as evidence that the peer is
//! alive, and a session that has seen none for longer than
//! [`session::CLIENT_TIMEOUT_MS`] is closed at the next timer tick.
//!
//! The library is pure logic over plain values: frames arrive pre-parsed as
//! [`frame::Frame`] values, time arrives as milliseconds on a monotonic
//! clock, and every reaction is returned as a [`frame::Reaction`] for the
//! surrounding transport code to carry out.

pub mod frame;
pub mod session;
