//! A tick-driven WebSocket transport bridge.
//!
//! The bridge owns the lifecycle of one WebSocket connection at a time and
//! exposes it to a frame-driven (tick-based) consumer as a pair of
//! non-blocking queues: inbound server messages and outbound client
//! commands. All connection-lifecycle decisions — teardown on reconnect,
//! state transitions, classification of inbound frames, and the per-tick
//! drain of the inbound relay — are made here and verified; the
//! platform-specific socket plumbing (handshakes, reader tasks, browser
//! callbacks) lives outside and talks to the bridge through plain values.

pub mod bridge;
pub mod laws;
pub mod messages;
pub mod reader;
pub mod relay;

pub use bridge::SocketCommand;
pub use bridge::WebSocketInstance;
pub use messages::ClientMessage;
pub use messages::ReadyState;
pub use messages::ServerMessage;
pub use messages::WebSocketState;
pub use reader::BrowserPayload;
pub use reader::InboundFrame;
pub use reader::ReadEvent;
pub use reader::ReaderStep;
