//! The inbound relay: an unbounded FIFO queue carrying [`ServerMessage`]s
//! from the code that observes the socket to the tick consumer.
//!
//! The queue is a `crossbeam_channel` unbounded channel. Its state lives
//! jointly in its two endpoints, so both are held together in one opaque
//! [`Relay`] value, and what the queue currently holds is named by the
//! abstract sequence [`relay_contents`]. The relay is owned by the tick
//! domain and only touched through the methods below; code that observes
//! the socket hands its messages to the tick domain as plain values, which
//! the tick domain then pushes here.

use vstd::prelude::*;

use crate::messages::ServerMessage;

verus! {

/// An unbounded FIFO queue of inbound messages, created fresh for each
/// connection attempt.
///
/// Holds both endpoints of one `crossbeam_channel` unbounded channel, so a
/// send can never fail with a disconnected receiver and a `try_recv` can
/// never report disconnection.
#[verifier::external_body]
pub struct Relay {
    tx: crossbeam_channel::Sender<ServerMessage>,
    rx: crossbeam_channel::Receiver<ServerMessage>,
}

/// The messages currently queued in the relay, oldest first.
pub uninterp spec fn relay_contents(r: Relay) -> Seq<ServerMessage>;

impl Relay {
    /// Relies on `crossbeam_channel::unbounded`: a freshly created channel
    /// holds no messages.
    #[verifier::external_body]
    pub fn new() -> (r: Relay)
        ensures
            relay_contents(r) == Seq::<ServerMessage>::empty(),
    {
        let (tx, rx) = crossbeam_channel::unbounded();
        Relay { tx, rx }
    }

    /// Relies on `crossbeam_channel::Sender::send`: on an unbounded channel
    /// it appends the message to the tail of the queue, and it only fails
    /// when every receiver is gone, which cannot happen here because the
    /// relay owns its receiving end.
    #[verifier::external_body]
    pub fn push(&mut self, message: ServerMessage)
        ensures
            relay_contents(*final(self)) == relay_contents(*old(self)).push(message),
    {
        let _ = self.tx.send(message);
    }

    /// Relies on `crossbeam_channel::Receiver::try_recv`: without blocking
    /// it takes the message at the head of the queue, or reports the queue
    /// empty. The unbounded channel is a linked-list queue, pushed at the
    /// tail and popped at the head, so messages come out in the order they
    /// went in.
    #[verifier::external_body]
    pub fn try_pop(&mut self) -> (popped: Option<ServerMessage>)
        ensures
            (match popped {
                Option::Some(message) => {
                    &&& relay_contents(*old(self)).len() > 0
                    &&& message == relay_contents(*old(self))[0]
                    &&& relay_contents(*final(self)) == relay_contents(*old(self)).drop_first()
                },
                Option::None => {
                    &&& relay_contents(*old(self)).len() == 0
                    &&& relay_contents(*final(self)) == relay_contents(*old(self))
                },
            }),
    {
        self.rx.try_recv().ok()
    }
}

} // verus!
