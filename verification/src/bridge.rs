//! The bridge itself: one context object owning the connection lifecycle.
//!
//! A [`WebSocketInstance`] holds the current [`ReadyState`], an optional
//! handle to the live socket, and the consuming end of the inbound relay.
//! It is owned by the single-threaded tick domain and never blocks: every
//! method decides from plain values and returns at once. Network work is
//! carried out by a backend, which receives a [`SocketCommand`] from
//! [`WebSocketInstance::write_message`], performs it, and reports the
//! outcome back through [`WebSocketInstance::install_connection`],
//! [`WebSocketInstance::handshake_failed`] and
//! [`WebSocketInstance::push_inbound`].
//!
//! Policy, fixed uniformly for every backend: a send command is forwarded
//! only while a socket handle is installed and the state is `OPEN`; in any
//! other case it is dropped with a warning ([`SocketCommand::Warn`]) and no
//! error event is produced. The state reported after a successful
//! handshake stays `CONNECTING` until the `Open` event is drained from the
//! relay by [`WebSocketInstance::read_stream`].

use vstd::prelude::*;

use crate::messages::ClientMessage;
use crate::messages::ReadyState;
use crate::messages::ServerMessage;
use crate::messages::WebSocketState;
use crate::relay::Relay;
use crate::relay::relay_contents;

verus! {

/// What the backend must do next, as decided by the bridge.
///
/// Socket handles are plain numbers: the backend keeps the actual socket
/// objects and knows which one each number stands for.
#[derive(Debug, PartialEq, Eq)]
pub enum SocketCommand {
    /// Nothing to do.
    Noop,
    /// Tear down the socket named by `teardown`, if any (best effort, its
    /// failures are logged and not propagated), then perform a handshake
    /// with `url` and report the outcome.
    Connect { url: String, teardown: Option<u64> },
    /// Forward a text frame to the named socket.
    SendText { socket: u64, text: String },
    /// Forward a binary frame to the named socket.
    SendBinary { socket: u64, bytes: Vec<u8> },
    /// Issue a close on the named socket.
    CloseSocket { socket: u64 },
    /// Log a warning: a send was issued with no open connection. The
    /// command is dropped; no event is produced.
    Warn,
}

/// The mathematical state of a bridge: lifecycle phase, installed socket
/// handle, and the messages queued in the relay (oldest first), or `None`
/// while no connection attempt has ever created a relay.
#[verifier::ext_equal]
pub ghost struct BridgeView {
    pub ready_state: ReadyState,
    pub socket: Option<u64>,
    pub relay: Option<Seq<ServerMessage>>,
}

/// The state of a freshly created bridge: empty, with no relay yet.
pub open spec fn spec_initial() -> BridgeView {
    BridgeView { ready_state: ReadyState::CONNECTING, socket: Option::None, relay: Option::None }
}

/// The effect of draining one message: `Open` moves the phase to `OPEN`;
/// `Close` moves it to `CLOSED` and clears the socket handle; everything
/// else (including `Error`) leaves the state alone.
pub open spec fn spec_apply(
    state: ReadyState,
    socket: Option<u64>,
    message: ServerMessage,
) -> (ReadyState, Option<u64>) {
    match message {
        ServerMessage::Open => (ReadyState::OPEN, socket),
        ServerMessage::Close => (ReadyState::CLOSED, Option::None),
        _ => (state, socket),
    }
}

/// The state left behind by draining a whole batch, oldest message first.
pub open spec fn spec_drain(
    state: ReadyState,
    socket: Option<u64>,
    messages: Seq<ServerMessage>,
) -> (ReadyState, Option<u64>)
    decreases messages.len(),
{
    if messages.len() == 0 {
        (state, socket)
    } else {
        let next = spec_apply(state, socket, messages[0]);
        spec_drain(next.0, next.1, messages.drop_first())
    }
}

/// One tick: the whole relay is drained and republished in arrival order,
/// and the drained messages are folded into the state. A bridge without a
/// relay ticks to itself and republishes nothing.
pub open spec fn spec_tick(v: BridgeView) -> (BridgeView, Seq<ServerMessage>) {
    match v.relay {
        Option::None => (v, Seq::<ServerMessage>::empty()),
        Option::Some(queued) => {
            let folded = spec_drain(v.ready_state, v.socket, queued);
            (
                BridgeView {
                    ready_state: folded.0,
                    socket: folded.1,
                    relay: Option::Some(Seq::<ServerMessage>::empty()),
                },
                queued,
            )
        },
    }
}

/// The effect of one outbound command on the bridge, and the socket work
/// it hands to the backend.
pub open spec fn spec_write(v: BridgeView, command: ClientMessage) -> (BridgeView, SocketCommand) {
    match command {
        ClientMessage::Open(url) => (
            BridgeView {
                ready_state: ReadyState::CONNECTING,
                socket: Option::None,
                relay: Option::Some(Seq::<ServerMessage>::empty()),
            },
            SocketCommand::Connect { url: url, teardown: v.socket },
        ),
        ClientMessage::String(text) => match v.socket {
            Option::Some(k) => if v.ready_state == ReadyState::OPEN {
                (v, SocketCommand::SendText { socket: k, text: text })
            } else {
                (v, SocketCommand::Warn)
            },
            Option::None => (v, SocketCommand::Warn),
        },
        ClientMessage::Binary(bytes) => match v.socket {
            Option::Some(k) => if v.ready_state == ReadyState::OPEN {
                (v, SocketCommand::SendBinary { socket: k, bytes: bytes })
            } else {
                (v, SocketCommand::Warn)
            },
            Option::None => (v, SocketCommand::Warn),
        },
        ClientMessage::Close => match v.socket {
            Option::Some(k) => (
                BridgeView { ready_state: ReadyState::CLOSING, socket: Option::None, ..v },
                SocketCommand::CloseSocket { socket: k },
            ),
            Option::None => (v, SocketCommand::Noop),
        },
    }
}

/// The effect of the backend installing a live socket handle after a
/// successful handshake: only the handle changes.
pub open spec fn spec_install(v: BridgeView, socket: u64) -> BridgeView {
    BridgeView { socket: Option::Some(socket), ..v }
}

/// The effect of the backend reporting a failed handshake: the phase
/// reverts to `CLOSED`, no handle is installed, and an `Error` event is
/// queued for the next tick.
pub open spec fn spec_handshake_failed(v: BridgeView, reason: String) -> BridgeView {
    BridgeView {
        ready_state: ReadyState::CLOSED,
        socket: v.socket,
        relay: match v.relay {
            Option::Some(queued) => Option::Some(queued.push(ServerMessage::Error(reason))),
            Option::None => Option::None,
        },
    }
}

/// The effect of queueing one inbound message: it is appended to the
/// relay; with no relay in existence it is dropped.
pub open spec fn spec_push_inbound(v: BridgeView, message: ServerMessage) -> BridgeView {
    match v.relay {
        Option::Some(queued) => BridgeView { relay: Option::Some(queued.push(message)), ..v },
        Option::None => v,
    }
}

/// The bridge's context object: the connection state, the handle to the
/// live socket (if one is installed), and the consuming end of the inbound
/// relay (once a connection attempt has created one).
///
/// Created empty at startup; the socket handle and relay are replaced
/// wholesale on every `Open` command, and the handle is cleared on `Close`
/// and on draining a `Close` event.
pub struct WebSocketInstance {
    /// The process-wide connection state, readable between ticks.
    pub state: WebSocketState,
    /// The handle naming the live socket held by the backend.
    pub socket: Option<u64>,
    relay: Option<Relay>,
}

impl View for WebSocketInstance {
    type V = BridgeView;

    closed spec fn view(&self) -> BridgeView {
        BridgeView {
            ready_state: self.state.ready_state,
            socket: self.socket,
            relay: match self.relay {
                Option::Some(r) => Option::Some(relay_contents(r)),
                Option::None => Option::None,
            },
        }
    }
}

impl WebSocketInstance {
    /// Create an empty bridge: no socket, no relay, state `CONNECTING`.
    pub fn new() -> (bridge: WebSocketInstance)
        ensures
            bridge@ == spec_initial(),
    {
        WebSocketInstance {
            state: WebSocketState { ready_state: ReadyState::CONNECTING },
            socket: Option::None,
            relay: Option::None,
        }
    }

    /// The current lifecycle phase, queryable at any time between ticks.
    pub fn ready_state(&self) -> (state: ReadyState)
        ensures
            state == self@.ready_state,
    {
        self.state.ready_state
    }

    /// Dispatch one outbound command, in the order commands were issued.
    ///
    /// `Open` is the reconnect trigger: the previous socket handle (if
    /// any) is handed back for teardown, the previous relay is discarded
    /// and replaced by a fresh empty one — so nothing queued by a stale
    /// connection is ever drained again — and the phase resets to
    /// `CONNECTING`. `String` and `Binary` are forwarded only while a
    /// socket is installed and the phase is `OPEN`; otherwise they are
    /// dropped with a warning. `Close` clears the handle and moves the
    /// phase to `CLOSING`; the transition to `CLOSED` happens when the
    /// close confirmation is drained as a [`ServerMessage::Close`].
    pub fn write_message(&mut self, command: ClientMessage) -> (action: SocketCommand)
        ensures
            final(self)@ == spec_write(old(self)@, command).0,
            action == spec_write(old(self)@, command).1,
    {
        match command {
            ClientMessage::Open(url) => {
                let teardown = self.socket;
                self.socket = Option::None;
                self.state.ready_state = ReadyState::CONNECTING;
                self.relay = Option::Some(Relay::new());
                SocketCommand::Connect { url, teardown }
            },
            ClientMessage::String(text) => match self.socket {
                Option::Some(k) => {
                    if self.state.ready_state == ReadyState::OPEN {
                        SocketCommand::SendText { socket: k, text }
                    } else {
                        SocketCommand::Warn
                    }
                },
                Option::None => SocketCommand::Warn,
            },
            ClientMessage::Binary(bytes) => match self.socket {
                Option::Some(k) => {
                    if self.state.ready_state == ReadyState::OPEN {
                        SocketCommand::SendBinary { socket: k, bytes }
                    } else {
                        SocketCommand::Warn
                    }
                },
                Option::None => SocketCommand::Warn,
            },
            ClientMessage::Close => match self.socket {
                Option::Some(k) => {
                    self.socket = Option::None;
                    self.state.ready_state = ReadyState::CLOSING;
                    SocketCommand::CloseSocket { socket: k }
                },
                Option::None => SocketCommand::Noop,
            },
        }
    }

    /// Install the live socket handle after a successful handshake.
    ///
    /// Called by the backend as a single unit of work on the tick domain.
    /// The phase is not touched: it stays `CONNECTING` until the `Open`
    /// event coming through the relay is drained.
    pub fn install_connection(&mut self, socket: u64)
        ensures
            final(self)@ == spec_install(old(self)@, socket),
    {
        self.socket = Option::Some(socket);
    }

    /// Record a failed handshake: the phase reverts to `CLOSED`, no handle
    /// is installed, and an `Error` event is queued so the next tick
    /// reports the failure.
    pub fn handshake_failed(&mut self, reason: String)
        ensures
            final(self)@ == spec_handshake_failed(old(self)@, reason),
    {
        self.state.ready_state = ReadyState::CLOSED;
        match &mut self.relay {
            Option::Some(r) => r.push(ServerMessage::Error(reason)),
            Option::None => {},
        }
    }

    /// Queue one inbound message for the next tick.
    ///
    /// This is the producer side of the relay, called from the tick domain
    /// with whatever the backend observed. With no relay in existence (no
    /// connection ever opened) the message is dropped.
    pub fn push_inbound(&mut self, message: ServerMessage)
        ensures
            final(self)@ == spec_push_inbound(old(self)@, message),
    {
        match &mut self.relay {
            Option::Some(r) => r.push(message),
            Option::None => {},
        }
    }

    /// Run one tick: drain the relay without blocking and republish every
    /// queued message in arrival order.
    ///
    /// Draining an `Open` moves the phase to `OPEN`; draining a `Close`
    /// moves it to `CLOSED` and clears the socket handle; `Error` and data
    /// messages leave the state alone. An empty or nonexistent relay is a
    /// no-op: no events, nothing changed.
    pub fn read_stream(&mut self) -> (events: Vec<ServerMessage>)
        ensures
            final(self)@ == spec_tick(old(self)@).0,
            events@ == spec_tick(old(self)@).1,
    {
        let mut events: Vec<ServerMessage> = Vec::new();
        if self.relay.is_none() {
            return events;
        }
        let ghost v0 = self@;
        let ghost q0 = v0.relay->0;
        let mut done = false;
        while !done
            invariant
                self.relay is Some,
                q0 == events@ + relay_contents(self.relay->0),
                spec_drain(v0.ready_state, v0.socket, q0) == spec_drain(
                    self.state.ready_state,
                    self.socket,
                    relay_contents(self.relay->0),
                ),
                done ==> relay_contents(self.relay->0).len() == 0,
            decreases relay_contents(self.relay->0).len() + (if done { 0int } else { 1int }),
        {
            let ghost events_prev = events@;
            let ghost rem_prev = relay_contents(self.relay->0);
            let popped = match &mut self.relay {
                Option::Some(r) => r.try_pop(),
                Option::None => Option::None,
            };
            match popped {
                Option::None => {
                    done = true;
                },
                Option::Some(message) => {
                    match &message {
                        ServerMessage::Open => {
                            self.state.ready_state = ReadyState::OPEN;
                        },
                        ServerMessage::Close => {
                            self.state.ready_state = ReadyState::CLOSED;
                            self.socket = Option::None;
                        },
                        _ => {},
                    }
                    events.push(message);
                    proof {
                        assert(events_prev + rem_prev =~= events@ + relay_contents(
                            self.relay->0,
                        ));
                    }
                },
            }
        }
        proof {
            assert(relay_contents(self.relay->0) =~= Seq::<ServerMessage>::empty());
            assert(q0 =~= events@);
        }
        events
    }
}

impl Default for WebSocketInstance {
    /// Same as [`WebSocketInstance::new`]: an empty bridge.
    fn default() -> (bridge: WebSocketInstance)
        ensures
            bridge@ == spec_initial(),
    {
        WebSocketInstance::new()
    }
}

} // verus!
