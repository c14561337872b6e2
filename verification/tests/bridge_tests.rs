use ws_bridge::bridge::{Bridge, LogEvent, PeerReceipt, RelayIo, StartupError, TransportError, startup_decision};
use ws_bridge::frame::{ClientEvent, Frame, FrameDisposition, classify};

#[test]
fn tick_reaches_all_three_active_clients() {
    let mut bridge = Bridge::new();
    bridge.session_opened(1);
    bridge.session_opened(2);
    bridge.session_opened(3);
    assert!(bridge.receive_begin());
    let out = bridge.receive_finish(PeerReceipt::Text(String::from("tick:BTCUSDT:50000")));
    assert_eq!(out.log, LogEvent::PeerBroadcast(String::from("tick:BTCUSDT:50000")));
    let plan = out.deliveries.expect("a well-formed message is broadcast");
    assert_eq!(plan.len(), 3);
    for id in [1u64, 2, 3] {
        let n = plan
            .iter()
            .filter(|d| d.session == id && d.text == "tick:BTCUSDT:50000")
            .count();
        assert_eq!(n, 1);
    }
}

#[test]
fn subscribe_reply_is_logged_not_rebroadcast() {
    // The client's text frame is forwarded verbatim to the peer.
    let d = classify(ClientEvent::Frame(Frame::Text(String::from("subscribe:ETHUSDT"))));
    let text = match d {
        FrameDisposition::Forward(t) => t,
        _ => panic!("a text frame is forwarded"),
    };
    assert_eq!(text, "subscribe:ETHUSDT");

    let mut bridge = Bridge::new();
    bridge.session_opened(1);
    assert!(bridge.relay_begin().is_ok());
    // The transport answered "ok": the reply is logged and produces no
    // delivery — relay_finish yields a log event and nothing else.
    let log = bridge.relay_finish(RelayIo::Reply(PeerReceipt::Text(String::from("ok"))));
    assert_eq!(log, LogEvent::RelayReply(String::from("ok")));
    assert_eq!(log.message(), "Got reply from ZMQ: ok");
    assert_eq!(bridge.client_count(), 1);
}

#[test]
fn disconnect_mid_broadcast_leaves_others_served() {
    let mut bridge = Bridge::new();
    bridge.session_opened(1);
    bridge.session_opened(2);
    bridge.session_opened(3);
    assert!(bridge.receive_begin());
    let out = bridge.receive_finish(PeerReceipt::Text(String::from("px")));
    let plan = out.deliveries.expect("a well-formed message is broadcast");
    // Client 2 disconnects while the plan is being walked. Delivery is
    // fire-and-forget: the broadcast surfaces no error, and the remaining
    // clients still have their deliveries.
    bridge.session_closed(2);
    for id in [1u64, 3] {
        let n = plan
            .iter()
            .filter(|d| d.session == id && d.text == "px")
            .count();
        assert_eq!(n, 1);
    }
    assert_eq!(bridge.client_count(), 2);
}

#[test]
fn malformed_peer_bytes_are_logged_and_loop_continues() {
    let mut bridge = Bridge::new();
    bridge.session_opened(1);
    assert!(bridge.receive_begin());
    let out = bridge.receive_finish(PeerReceipt::MalformedText);
    assert_eq!(out.log, LogEvent::ReceiveMalformed);
    assert!(out.deliveries.is_none());
    assert_eq!(bridge.client_count(), 1);
    // The loop goes around again.
    assert!(bridge.receive_begin());
    let out = bridge.receive_finish(PeerReceipt::LinkError);
    assert_eq!(out.log, LogEvent::ReceiveLinkError);
    assert!(out.deliveries.is_none());
}

#[test]
fn relay_against_held_guard_drops_the_message() {
    let mut bridge = Bridge::new();
    assert!(bridge.receive_begin());
    // The receive loop holds the connection: the relay call fails at once
    // and the message is dropped.
    assert_eq!(bridge.relay_begin(), Err(TransportError::LockUnavailable));
    bridge.receive_finish(PeerReceipt::LinkError);
    // Once the guard is free again, the relay goes through.
    assert!(bridge.relay_begin().is_ok());
    let log = bridge.relay_finish(RelayIo::SendFailed);
    assert_eq!(log, LogEvent::RelaySendFailed);
}

#[test]
fn non_text_frames_are_ignored_and_close_tears_down() {
    assert!(matches!(
        classify(ClientEvent::Frame(Frame::Binary(vec![1, 2, 3]))),
        FrameDisposition::Ignore
    ));
    assert!(matches!(classify(ClientEvent::Frame(Frame::Ping)), FrameDisposition::Ignore));
    assert!(matches!(classify(ClientEvent::Frame(Frame::Pong)), FrameDisposition::Ignore));
    assert!(matches!(classify(ClientEvent::Frame(Frame::Close)), FrameDisposition::Teardown));
    assert!(matches!(classify(ClientEvent::ProtocolError), FrameDisposition::Teardown));
}

#[test]
fn startup_stops_before_binding_when_transport_fails() {
    assert_eq!(startup_decision(false, true, true), Err(StartupError::TransportConnect));
    assert_eq!(startup_decision(false, false, false), Err(StartupError::TransportConnect));
    assert_eq!(startup_decision(true, false, true), Err(StartupError::TlsKeyLoad));
    assert_eq!(startup_decision(true, true, false), Err(StartupError::TlsCertificateLoad));
    assert_eq!(startup_decision(true, true, true), Ok(()));
}
