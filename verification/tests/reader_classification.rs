use ws_bridge::reader::classify_frame;
use ws_bridge::reader::classify_payload;
use ws_bridge::reader::reader_step;
use ws_bridge::BrowserPayload;
use ws_bridge::InboundFrame;
use ws_bridge::ReadEvent;
use ws_bridge::ReaderStep;
use ws_bridge::ServerMessage;

#[test]
fn text_frame_becomes_string_message() {
    assert_eq!(
        classify_frame(InboundFrame::Text("hi".to_string())),
        Some(ServerMessage::String("hi".to_string()))
    );
}

#[test]
fn binary_frame_becomes_binary_message() {
    assert_eq!(
        classify_frame(InboundFrame::Binary(vec![1, 2, 3])),
        Some(ServerMessage::Binary(vec![1, 2, 3]))
    );
}

#[test]
fn close_frame_becomes_close_message() {
    assert_eq!(classify_frame(InboundFrame::Close), Some(ServerMessage::Close));
}

#[test]
fn control_frames_are_ignored() {
    assert_eq!(classify_frame(InboundFrame::Ping(vec![9])), None);
    assert_eq!(classify_frame(InboundFrame::Pong(vec![])), None);
}

#[test]
fn string_payload_becomes_string_message() {
    assert_eq!(
        classify_payload(BrowserPayload::Text("msg".to_string())),
        Some(ServerMessage::String("msg".to_string()))
    );
}

#[test]
fn buffer_payload_becomes_binary_message() {
    assert_eq!(
        classify_payload(BrowserPayload::Buffer(vec![0, 255])),
        Some(ServerMessage::Binary(vec![0, 255]))
    );
}

#[test]
fn unsupported_payload_is_dropped() {
    assert_eq!(classify_payload(BrowserPayload::Unsupported), None);
}

#[test]
fn reader_keeps_reading_after_data_frames() {
    assert_eq!(
        reader_step(ReadEvent::Frame(InboundFrame::Text("hi".to_string()))),
        ReaderStep {
            publish: Some(ServerMessage::String("hi".to_string())),
            keep_reading: true,
        }
    );
    assert_eq!(
        reader_step(ReadEvent::Frame(InboundFrame::Ping(vec![]))),
        ReaderStep { publish: None, keep_reading: true }
    );
}

#[test]
fn reader_stops_after_close_frame() {
    assert_eq!(
        reader_step(ReadEvent::Frame(InboundFrame::Close)),
        ReaderStep { publish: Some(ServerMessage::Close), keep_reading: false }
    );
}

#[test]
fn reader_reports_error_and_keeps_reading() {
    assert_eq!(
        reader_step(ReadEvent::ReadError("torn frame".to_string())),
        ReaderStep {
            publish: Some(ServerMessage::Error("torn frame".to_string())),
            keep_reading: true,
        }
    );
}

#[test]
fn reader_stops_quietly_on_disconnect() {
    assert_eq!(
        reader_step(ReadEvent::Disconnected),
        ReaderStep { publish: None, keep_reading: false }
    );
}
