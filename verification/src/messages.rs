//! Message and lifecycle-state types shared by both sides of the bridge.
//!
//! Inbound traffic (server to client) is a [`ServerMessage`]; outbound
//! commands (client to server) are a [`ClientMessage`]. The lifecycle of the
//! single managed connection is a [`ReadyState`], wrapped in
//! [`WebSocketState`] so that consumers can query it between ticks.

use vstd::prelude::*;

verus! {

/// An inbound event observed on the connection: either a frame delivered by
/// the server, a lifecycle notification, or a transport error.
///
/// Within one connection, events are delivered to the tick consumer in
/// exactly the order they were pushed into the relay.
#[derive(Debug, PartialEq, Eq)]
pub enum ServerMessage {
    /// A transport or handshake failure, with a human-readable reason.
    Error(String),
    /// The connection finished its handshake and is open.
    Open,
    /// A text frame.
    String(String),
    /// A binary frame.
    Binary(Vec<u8>),
    /// The connection was closed by the peer or by a close handshake.
    Close,
}

/// An outbound command issued by the consumer: open (or reopen) a
/// connection, send a frame, or close the current connection.
#[derive(Debug, PartialEq, Eq)]
pub enum ClientMessage {
    /// Connect to the given URL, tearing down any live connection first.
    Open(String),
    /// Send a text frame.
    String(String),
    /// Send a binary frame.
    Binary(Vec<u8>),
    /// Close the current connection, if any.
    Close,
}

/// The lifecycle phase of the managed connection.
///
/// Within one logical connection the phase only moves forward:
/// `CONNECTING` to `OPEN` to `CLOSING` to `CLOSED`. A fresh `Open` command
/// starts a new logical connection and resets the phase to `CONNECTING`.
#[derive(Clone, Copy, Debug, PartialEq, Eq, Structural)]
#[allow(non_camel_case_types)]
pub enum ReadyState {
    CONNECTING,
    OPEN,
    CLOSING,
    CLOSED,
}

impl Default for ReadyState {
    /// A fresh bridge reports `CONNECTING` before any connection exists.
    fn default() -> (r: ReadyState)
        ensures
            r == ReadyState::CONNECTING,
    {
        ReadyState::CONNECTING
    }
}

/// The process-wide connection state, readable by any consumer between
/// ticks. Mutated only by the connection manager and the tick consumer.
#[derive(Clone, Copy, Debug, PartialEq, Eq, Structural)]
pub struct WebSocketState {
    pub ready_state: ReadyState,
}

impl Default for WebSocketState {
    fn default() -> (r: WebSocketState)
        ensures
            r.ready_state == ReadyState::CONNECTING,
    {
        WebSocketState { ready_state: ReadyState::CONNECTING }
    }
}

} // verus!
