//! Classification of what a backend reads from the socket.
//!
//! Both backends feed the relay through the same funnel: something was
//! observed on the socket, and it must be classified as a
//! [`ServerMessage`] or dropped. The native backend reads whole frames in
//! a loop ([`InboundFrame`], [`reader_step`]); the browser backend receives
//! message payloads through callbacks ([`BrowserPayload`],
//! [`classify_payload`]). The backends hand the observed data here as plain
//! values and perform whatever the returned step tells them to.

use vstd::prelude::*;

use crate::messages::ServerMessage;

verus! {

/// A whole frame read from a native socket, reduced to the data the
/// classifier looks at.
#[derive(Debug, PartialEq, Eq)]
pub enum InboundFrame {
    /// A text frame.
    Text(String),
    /// A binary frame.
    Binary(Vec<u8>),
    /// A ping control frame, with its payload.
    Ping(Vec<u8>),
    /// A pong control frame, with its payload.
    Pong(Vec<u8>),
    /// A close frame.
    Close,
}

/// The payload of a browser message callback, reduced to its shape: a
/// string, a fully materialized byte buffer, or something the bridge does
/// not understand.
#[derive(Debug, PartialEq, Eq)]
pub enum BrowserPayload {
    /// A string payload.
    Text(String),
    /// A binary payload, already materialized in full.
    Buffer(Vec<u8>),
    /// An unrecognized payload shape; logged and dropped, never delivered.
    Unsupported,
}

/// One observation made by the native read loop: a frame, a read error
/// that is not fatal to the connection, or the connection itself going
/// away.
#[derive(Debug, PartialEq, Eq)]
pub enum ReadEvent {
    /// A frame arrived.
    Frame(InboundFrame),
    /// A read failed, with a reason; the connection may still be readable.
    ReadError(String),
    /// The connection reported itself closed or unreadable.
    Disconnected,
}

/// What the native read loop must do after one observation: push a message
/// into the relay (or not), and keep reading (or stop).
#[derive(Debug, PartialEq, Eq)]
pub struct ReaderStep {
    /// The message to push into the relay, if the observation produced one.
    pub publish: Option<ServerMessage>,
    /// Whether the read loop should attempt another read.
    pub keep_reading: bool,
}

/// How a native frame is classified: data frames and close frames become
/// messages, control frames are ignored.
pub open spec fn spec_classify_frame(frame: InboundFrame) -> Option<ServerMessage> {
    match frame {
        InboundFrame::Text(text) => Option::Some(ServerMessage::String(text)),
        InboundFrame::Binary(bytes) => Option::Some(ServerMessage::Binary(bytes)),
        InboundFrame::Ping(_) => Option::None,
        InboundFrame::Pong(_) => Option::None,
        InboundFrame::Close => Option::Some(ServerMessage::Close),
    }
}

/// Classify one frame read from a native socket.
///
/// Text and binary frames map one-to-one to their message variants, a
/// close frame becomes [`ServerMessage::Close`], and ping/pong control
/// frames produce nothing.
pub fn classify_frame(frame: InboundFrame) -> (message: Option<ServerMessage>)
    ensures
        message == spec_classify_frame(frame),
{
    match frame {
        InboundFrame::Text(text) => Option::Some(ServerMessage::String(text)),
        InboundFrame::Binary(bytes) => Option::Some(ServerMessage::Binary(bytes)),
        InboundFrame::Ping(_) => Option::None,
        InboundFrame::Pong(_) => Option::None,
        InboundFrame::Close => Option::Some(ServerMessage::Close),
    }
}

/// How a browser payload is classified: strings and buffers become
/// messages, an unrecognized shape is dropped.
pub open spec fn spec_classify_payload(payload: BrowserPayload) -> Option<ServerMessage> {
    match payload {
        BrowserPayload::Text(text) => Option::Some(ServerMessage::String(text)),
        BrowserPayload::Buffer(bytes) => Option::Some(ServerMessage::Binary(bytes)),
        BrowserPayload::Unsupported => Option::None,
    }
}

/// Classify the payload of one browser message callback.
///
/// A string payload becomes [`ServerMessage::String`] and a byte buffer
/// becomes [`ServerMessage::Binary`]; an unrecognized shape produces
/// nothing, so the caller logs it and drops it rather than delivering a
/// malformed event.
pub fn classify_payload(payload: BrowserPayload) -> (message: Option<ServerMessage>)
    ensures
        message == spec_classify_payload(payload),
{
    match payload {
        BrowserPayload::Text(text) => Option::Some(ServerMessage::String(text)),
        BrowserPayload::Buffer(bytes) => Option::Some(ServerMessage::Binary(bytes)),
        BrowserPayload::Unsupported => Option::None,
    }
}

/// What the native read loop does after one observation.
pub open spec fn spec_reader_step(event: ReadEvent) -> ReaderStep {
    match event {
        ReadEvent::Frame(frame) => ReaderStep {
            publish: spec_classify_frame(frame),
            keep_reading: !(frame is Close),
        },
        ReadEvent::ReadError(reason) => ReaderStep {
            publish: Option::Some(ServerMessage::Error(reason)),
            keep_reading: true,
        },
        ReadEvent::Disconnected => ReaderStep { publish: Option::None, keep_reading: false },
    }
}

/// Decide what the native read loop does after one observation.
///
/// A frame is classified and pushed; after a close frame the loop stops,
/// since the connection is finished. A read error is reported as an
/// [`ServerMessage::Error`] event and the loop keeps attempting reads — the
/// socket's own readability is the loop's exit condition. Only a
/// closed-connection signal ends the loop, and it produces no event of its
/// own: the close frame or error that preceded it already did.
pub fn reader_step(event: ReadEvent) -> (step: ReaderStep)
    ensures
        step == spec_reader_step(event),
{
    match event {
        ReadEvent::Frame(frame) => {
            let stop = match &frame {
                InboundFrame::Close => true,
                _ => false,
            };
            ReaderStep { publish: classify_frame(frame), keep_reading: !stop }
        },
        ReadEvent::ReadError(reason) => ReaderStep {
            publish: Option::Some(ServerMessage::Error(reason)),
            keep_reading: true,
        },
        ReadEvent::Disconnected => ReaderStep { publish: Option::None, keep_reading: false },
    }
}

} // verus!
