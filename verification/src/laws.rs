//! Laws of the bridge, stated over the view-level transition functions of
//! [`crate::bridge`] and proved once for all inputs.

use vstd::prelude::*;

use crate::bridge::BridgeView;
use crate::bridge::spec_apply;
use crate::bridge::spec_drain;
use crate::bridge::spec_install;
use crate::bridge::spec_push_inbound;
use crate::bridge::spec_tick;
use crate::bridge::spec_write;
use crate::bridge::SocketCommand;
use crate::messages::ClientMessage;
use crate::messages::ReadyState;
use crate::messages::ServerMessage;

verus! {

/// The state of a bridge after a whole batch of inbound messages has been
/// queued, oldest first.
pub open spec fn spec_push_all(v: BridgeView, messages: Seq<ServerMessage>) -> BridgeView
    decreases messages.len(),
{
    if messages.len() == 0 {
        v
    } else {
        spec_push_all(spec_push_inbound(v, messages[0]), messages.drop_first())
    }
}

/// Queueing a batch touches nothing but the relay, where the batch ends up
/// appended in order.
proof fn lemma_push_all_queues(v: BridgeView, messages: Seq<ServerMessage>)
    requires
        v.relay is Some,
    ensures
        spec_push_all(v, messages).ready_state == v.ready_state,
        spec_push_all(v, messages).socket == v.socket,
        spec_push_all(v, messages).relay == Option::Some(v.relay->0 + messages),
    decreases messages.len(),
{
    if messages.len() == 0 {
        assert(v.relay->0 + messages =~= v.relay->0);
    } else {
        let v1 = spec_push_inbound(v, messages[0]);
        lemma_push_all_queues(v1, messages.drop_first());
        assert(v.relay->0.push(messages[0]) + messages.drop_first() =~= v.relay->0 + messages);
    }
}

/// Order preservation: whatever sequence of inbound messages is pushed
/// into the relay between two ticks — the relay is empty right after a
/// tick — the next tick republishes exactly that sequence, in that order.
pub proof fn lemma_tick_republishes_in_order(v: BridgeView, messages: Seq<ServerMessage>)
    requires
        v.relay == Option::Some(Seq::<ServerMessage>::empty()),
    ensures
        spec_tick(spec_push_all(v, messages)).1 == messages,
{
    lemma_push_all_queues(v, messages);
    assert(Seq::<ServerMessage>::empty() + messages =~= messages);
}

/// Draining an empty or nonexistent relay is a no-op: no events are
/// produced and the bridge is left exactly as it was.
pub proof fn lemma_empty_tick_is_noop(v: BridgeView)
    requires
        v.relay is None || v.relay == Option::Some(Seq::<ServerMessage>::empty()),
    ensures
        spec_tick(v).0 == v,
        spec_tick(v).1 == Seq::<ServerMessage>::empty(),
{
    assert(spec_tick(v).0 =~= v);
}

/// Reopening over a live connection tears the old instance down exactly
/// once — the connect command names the old socket handle, once, for
/// teardown — and replaces the relay with a fresh empty one, so no event
/// queued by the stale connection is ever drained again.
pub proof fn lemma_reopen_tears_down_once(v: BridgeView, url: String)
    requires
        v.ready_state == ReadyState::OPEN,
        v.socket is Some,
    ensures
        spec_write(v, ClientMessage::Open(url)).1 == (SocketCommand::Connect {
            url: url,
            teardown: v.socket,
        }),
        spec_write(v, ClientMessage::Open(url)).0.relay == Option::Some(
            Seq::<ServerMessage>::empty(),
        ),
        spec_tick(spec_write(v, ClientMessage::Open(url)).0).1 == Seq::<ServerMessage>::empty(),
{
}

/// Until the `Open` event is drained, a successful open leaves the phase
/// at `CONNECTING`: the `Open` command resets it, and installing the
/// socket handle after the handshake does not touch it.
pub proof fn lemma_open_starts_connecting(v: BridgeView, url: String, socket: u64)
    ensures
        spec_write(v, ClientMessage::Open(url)).0.ready_state == ReadyState::CONNECTING,
        spec_install(
            spec_write(v, ClientMessage::Open(url)).0,
            socket,
        ).ready_state == ReadyState::CONNECTING,
{
}

/// From `OPEN`, draining any batch without a `Close` leaves the phase at
/// `OPEN`.
proof fn lemma_drain_no_close_stays_open(
    state: ReadyState,
    socket: Option<u64>,
    messages: Seq<ServerMessage>,
)
    requires
        state == ReadyState::OPEN,
        forall|j: int| 0 <= j < messages.len() ==> !(messages[j] is Close),
    ensures
        spec_drain(state, socket, messages).0 == ReadyState::OPEN,
    decreases messages.len(),
{
    if messages.len() > 0 {
        let next = spec_apply(state, socket, messages[0]);
        let rest = messages.drop_first();
        assert forall|j: int| 0 <= j < rest.len() implies !(rest[j] is Close) by {
            assert(rest[j] == messages[j + 1]);
        }
        lemma_drain_no_close_stays_open(next.0, next.1, rest);
    }
}

/// A tick that drains an `Open` event with no `Close` after it ends with
/// the phase at `OPEN` — the transition happens no later than the tick in
/// which the `Open` event is drained.
pub proof fn lemma_open_drained_opens(v: BridgeView, i: int)
    requires
        v.relay is Some,
        0 <= i < v.relay->0.len(),
        v.relay->0[i] is Open,
        forall|j: int| i < j < v.relay->0.len() ==> !(v.relay->0[j] is Close),
    ensures
        spec_tick(v).0.ready_state == ReadyState::OPEN,
{
    lemma_drain_opens(v.ready_state, v.socket, v.relay->0, i);
}

/// Helper for [`lemma_open_drained_opens`], by induction on the position
/// of the `Open` event.
proof fn lemma_drain_opens(
    state: ReadyState,
    socket: Option<u64>,
    messages: Seq<ServerMessage>,
    i: int,
)
    requires
        0 <= i < messages.len(),
        messages[i] is Open,
        forall|j: int| i < j < messages.len() ==> !(messages[j] is Close),
    ensures
        spec_drain(state, socket, messages).0 == ReadyState::OPEN,
    decreases i,
{
    let next = spec_apply(state, socket, messages[0]);
    let rest = messages.drop_first();
    if i == 0 {
        assert forall|j: int| 0 <= j < rest.len() implies !(rest[j] is Close) by {
            assert(rest[j] == messages[j + 1]);
        }
        lemma_drain_no_close_stays_open(next.0, next.1, rest);
    } else {
        assert(rest[i - 1] == messages[i]);
        assert forall|j: int| i - 1 < j < rest.len() implies !(rest[j] is Close) by {
            assert(rest[j] == messages[j + 1]);
        }
        lemma_drain_opens(next.0, next.1, rest, i - 1);
    }
}

/// From `CLOSED` with the handle already cleared, draining any batch
/// without an `Open` leaves the phase at `CLOSED` and the handle cleared.
proof fn lemma_drain_no_open_stays_closed(
    state: ReadyState,
    socket: Option<u64>,
    messages: Seq<ServerMessage>,
)
    requires
        state == ReadyState::CLOSED,
        socket is None,
        forall|j: int| 0 <= j < messages.len() ==> !(messages[j] is Open),
    ensures
        spec_drain(state, socket, messages).0 == ReadyState::CLOSED,
        spec_drain(state, socket, messages).1 is None,
    decreases messages.len(),
{
    if messages.len() > 0 {
        let next = spec_apply(state, socket, messages[0]);
        let rest = messages.drop_first();
        assert forall|j: int| 0 <= j < rest.len() implies !(rest[j] is Open) by {
            assert(rest[j] == messages[j + 1]);
        }
        lemma_drain_no_open_stays_closed(next.0, next.1, rest);
    }
}

/// A tick that drains a `Close` event with no `Open` after it ends with
/// the phase at `CLOSED` and the socket handle cleared.
pub proof fn lemma_close_drained_closes(v: BridgeView, i: int)
    requires
        v.relay is Some,
        0 <= i < v.relay->0.len(),
        v.relay->0[i] is Close,
        forall|j: int| i < j < v.relay->0.len() ==> !(v.relay->0[j] is Open),
    ensures
        spec_tick(v).0.ready_state == ReadyState::CLOSED,
        spec_tick(v).0.socket is None,
{
    lemma_drain_closes(v.ready_state, v.socket, v.relay->0, i);
}

/// Helper for [`lemma_close_drained_closes`], by induction on the position
/// of the `Close` event.
proof fn lemma_drain_closes(
    state: ReadyState,
    socket: Option<u64>,
    messages: Seq<ServerMessage>,
    i: int,
)
    requires
        0 <= i < messages.len(),
        messages[i] is Close,
        forall|j: int| i < j < messages.len() ==> !(messages[j] is Open),
    ensures
        spec_drain(state, socket, messages).0 == ReadyState::CLOSED,
        spec_drain(state, socket, messages).1 is None,
    decreases i,
{
    let next = spec_apply(state, socket, messages[0]);
    let rest = messages.drop_first();
    if i == 0 {
        assert forall|j: int| 0 <= j < rest.len() implies !(rest[j] is Open) by {
            assert(rest[j] == messages[j + 1]);
        }
        lemma_drain_no_open_stays_closed(next.0, next.1, rest);
    } else {
        assert(rest[i - 1] == messages[i]);
        assert forall|j: int| i - 1 < j < rest.len() implies !(rest[j] is Open) by {
            assert(rest[j] == messages[j + 1]);
        }
        lemma_drain_closes(next.0, next.1, rest, i - 1);
    }
}

/// With the socket handle cleared — after a `Close` was drained, or before
/// any connection was ever opened — a send is a warning and nothing else:
/// the bridge is unchanged and no event is produced.
pub proof fn lemma_send_without_socket_warns(v: BridgeView, text: String)
    requires
        v.socket is None,
    ensures
        spec_write(v, ClientMessage::String(text)) == (v, SocketCommand::Warn),
{
}

} // verus!
