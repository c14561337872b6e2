use ws_bridge::bridge::LogEvent;
use ws_bridge::logging::{format_log_line, log_line};

#[test]
fn log_line_has_bracketed_timestamp_shape() {
    let line = format_log_line("2024-01-02 03:04:05", "connected");
    assert_eq!(line, "[2024-01-02 03:04:05] connected");
}

#[test]
fn stamped_line_wraps_the_message() {
    let line = log_line("hello");
    assert!(line.starts_with('['));
    assert!(line.ends_with("] hello"));
}

#[test]
fn each_event_logs_its_exact_text() {
    assert_eq!(LogEvent::ClientConnected.message(), "WS client connected");
    assert_eq!(LogEvent::ClientDisconnected.message(), "WS client disconnected");
    assert_eq!(
        LogEvent::PeerBroadcast(String::from("tick:1")).message(),
        "ZMQ -> WS: tick:1"
    );
    assert_eq!(LogEvent::RelayReply(String::from("ok")).message(), "Got reply from ZMQ: ok");
    assert_eq!(LogEvent::RelayDropped.message(), "Failed to acquire socket lock");
    assert_eq!(LogEvent::RelaySendFailed.message(), "Failed to send to ZMQ");
    assert_eq!(LogEvent::ReplyMalformed.message(), "ZMQ UTF-8 decode error");
    assert_eq!(LogEvent::ReplyLinkError.message(), "Socket error on reply");
    assert_eq!(LogEvent::ReceiveMalformed.message(), "UTF-8 error");
    assert_eq!(LogEvent::ReceiveLinkError.message(), "Socket error");
}
