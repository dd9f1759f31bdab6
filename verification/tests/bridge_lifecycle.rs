use ws_bridge::ClientMessage;
use ws_bridge::ReadyState;
use ws_bridge::ServerMessage;
use ws_bridge::SocketCommand;
use ws_bridge::WebSocketInstance;

#[test]
fn fresh_bridge_reports_connecting() {
    let bridge = WebSocketInstance::new();
    assert_eq!(bridge.ready_state(), ReadyState::CONNECTING);
    assert_eq!(bridge.socket, None);
    let defaulted = WebSocketInstance::default();
    assert_eq!(defaulted.ready_state(), ReadyState::CONNECTING);
}

#[test]
fn draining_nonexistent_relay_is_noop() {
    let mut bridge = WebSocketInstance::new();
    let events = bridge.read_stream();
    assert!(events.is_empty());
    assert_eq!(bridge.ready_state(), ReadyState::CONNECTING);
    assert_eq!(bridge.socket, None);
}

#[test]
fn draining_empty_relay_is_noop() {
    let mut bridge = WebSocketInstance::new();
    bridge.write_message(ClientMessage::Open("ws://test".to_string()));
    bridge.install_connection(1);
    let events = bridge.read_stream();
    assert!(events.is_empty());
    assert_eq!(bridge.ready_state(), ReadyState::CONNECTING);
    assert_eq!(bridge.socket, Some(1));
}

#[test]
fn message_pushed_with_no_relay_is_dropped() {
    let mut bridge = WebSocketInstance::new();
    bridge.push_inbound(ServerMessage::String("orphan".to_string()));
    let events = bridge.read_stream();
    assert!(events.is_empty());
}

#[test]
fn open_handshake_and_close_scenario() {
    let mut bridge = WebSocketInstance::new();

    let action = bridge.write_message(ClientMessage::Open("ws://test".to_string()));
    assert_eq!(
        action,
        SocketCommand::Connect { url: "ws://test".to_string(), teardown: None }
    );
    assert_eq!(bridge.ready_state(), ReadyState::CONNECTING);

    // The backend's handshake succeeds: the handle is installed and the
    // `Open` event arrives through the relay.
    bridge.install_connection(1);
    assert_eq!(bridge.ready_state(), ReadyState::CONNECTING);
    bridge.push_inbound(ServerMessage::Open);

    let events = bridge.read_stream();
    assert_eq!(events, vec![ServerMessage::Open]);
    assert_eq!(bridge.ready_state(), ReadyState::OPEN);

    bridge.push_inbound(ServerMessage::Binary(vec![1, 2, 3]));
    bridge.push_inbound(ServerMessage::String("hi".to_string()));
    let events = bridge.read_stream();
    assert_eq!(
        events,
        vec![
            ServerMessage::Binary(vec![1, 2, 3]),
            ServerMessage::String("hi".to_string()),
        ]
    );

    bridge.push_inbound(ServerMessage::Close);
    let events = bridge.read_stream();
    assert_eq!(events, vec![ServerMessage::Close]);
    assert_eq!(bridge.ready_state(), ReadyState::CLOSED);
    assert_eq!(bridge.socket, None);
}

#[test]
fn send_with_no_connection_is_warning() {
    let mut bridge = WebSocketInstance::new();
    let action = bridge.write_message(ClientMessage::String("x".to_string()));
    assert_eq!(action, SocketCommand::Warn);
    let events = bridge.read_stream();
    assert!(events.is_empty());
    assert_eq!(bridge.ready_state(), ReadyState::CONNECTING);
}

#[test]
fn send_before_open_is_warning() {
    let mut bridge = WebSocketInstance::new();
    bridge.write_message(ClientMessage::Open("ws://test".to_string()));
    bridge.install_connection(1);
    // Handshake done, but the `Open` event has not been drained yet.
    let action = bridge.write_message(ClientMessage::String("early".to_string()));
    assert_eq!(action, SocketCommand::Warn);
}

#[test]
fn send_after_close_drained_is_warning() {
    let mut bridge = WebSocketInstance::new();
    bridge.write_message(ClientMessage::Open("ws://test".to_string()));
    bridge.install_connection(1);
    bridge.push_inbound(ServerMessage::Open);
    bridge.read_stream();
    bridge.push_inbound(ServerMessage::Close);
    bridge.read_stream();
    assert_eq!(bridge.ready_state(), ReadyState::CLOSED);
    assert_eq!(bridge.socket, None);
    let action = bridge.write_message(ClientMessage::String("late".to_string()));
    assert_eq!(action, SocketCommand::Warn);
}

#[test]
fn open_while_open_tears_down_prior_and_discards_stale_events() {
    let mut bridge = WebSocketInstance::new();
    bridge.write_message(ClientMessage::Open("ws://first".to_string()));
    bridge.install_connection(1);
    bridge.push_inbound(ServerMessage::Open);
    bridge.read_stream();
    assert_eq!(bridge.ready_state(), ReadyState::OPEN);

    // Events from the first connection are still queued when the reconnect
    // arrives.
    bridge.push_inbound(ServerMessage::String("stale".to_string()));
    let action = bridge.write_message(ClientMessage::Open("ws://second".to_string()));
    assert_eq!(
        action,
        SocketCommand::Connect { url: "ws://second".to_string(), teardown: Some(1) }
    );
    assert_eq!(bridge.ready_state(), ReadyState::CONNECTING);

    // The stale relay was replaced: nothing from the first connection leaks.
    let events = bridge.read_stream();
    assert!(events.is_empty());

    bridge.install_connection(2);
    bridge.push_inbound(ServerMessage::Open);
    let events = bridge.read_stream();
    assert_eq!(events, vec![ServerMessage::Open]);
    assert_eq!(bridge.socket, Some(2));
}

#[test]
fn close_command_clears_handle_and_moves_to_closing() {
    let mut bridge = WebSocketInstance::new();
    bridge.write_message(ClientMessage::Open("ws://test".to_string()));
    bridge.install_connection(1);
    bridge.push_inbound(ServerMessage::Open);
    bridge.read_stream();

    let action = bridge.write_message(ClientMessage::Close);
    assert_eq!(action, SocketCommand::CloseSocket { socket: 1 });
    assert_eq!(bridge.ready_state(), ReadyState::CLOSING);
    assert_eq!(bridge.socket, None);

    // The close confirmation is observed on the next tick.
    bridge.push_inbound(ServerMessage::Close);
    let events = bridge.read_stream();
    assert_eq!(events, vec![ServerMessage::Close]);
    assert_eq!(bridge.ready_state(), ReadyState::CLOSED);
}

#[test]
fn close_with_no_connection_is_noop() {
    let mut bridge = WebSocketInstance::new();
    let action = bridge.write_message(ClientMessage::Close);
    assert_eq!(action, SocketCommand::Noop);
    assert_eq!(bridge.ready_state(), ReadyState::CONNECTING);
}

#[test]
fn sends_forwarded_while_open() {
    let mut bridge = WebSocketInstance::new();
    bridge.write_message(ClientMessage::Open("ws://test".to_string()));
    bridge.install_connection(9);
    bridge.push_inbound(ServerMessage::Open);
    bridge.read_stream();

    let action = bridge.write_message(ClientMessage::String("hello".to_string()));
    assert_eq!(
        action,
        SocketCommand::SendText { socket: 9, text: "hello".to_string() }
    );
    let action = bridge.write_message(ClientMessage::Binary(vec![0xca, 0xfe]));
    assert_eq!(
        action,
        SocketCommand::SendBinary { socket: 9, bytes: vec![0xca, 0xfe] }
    );
}

#[test]
fn handshake_failure_reports_error_and_reverts_to_closed() {
    let mut bridge = WebSocketInstance::new();
    bridge.write_message(ClientMessage::Open("ws://nowhere".to_string()));
    bridge.handshake_failed("connection refused".to_string());
    assert_eq!(bridge.ready_state(), ReadyState::CLOSED);
    assert_eq!(bridge.socket, None);
    let events = bridge.read_stream();
    assert_eq!(
        events,
        vec![ServerMessage::Error("connection refused".to_string())]
    );
    // An error does not change the state by itself.
    assert_eq!(bridge.ready_state(), ReadyState::CLOSED);
}

#[test]
fn relay_preserves_arrival_order() {
    let mut bridge = WebSocketInstance::new();
    bridge.write_message(ClientMessage::Open("ws://test".to_string()));
    bridge.install_connection(1);
    let batch = vec![
        ServerMessage::Open,
        ServerMessage::String("a".to_string()),
        ServerMessage::Binary(vec![1]),
        ServerMessage::Error("transient".to_string()),
        ServerMessage::String("b".to_string()),
        ServerMessage::Binary(vec![2, 3]),
    ];
    for message in [
        ServerMessage::Open,
        ServerMessage::String("a".to_string()),
        ServerMessage::Binary(vec![1]),
        ServerMessage::Error("transient".to_string()),
        ServerMessage::String("b".to_string()),
        ServerMessage::Binary(vec![2, 3]),
    ] {
        bridge.push_inbound(message);
    }
    let events = bridge.read_stream();
    assert_eq!(events, batch);
    // A read error leaves the connection open.
    assert_eq!(bridge.ready_state(), ReadyState::OPEN);
}
