use ws_bridge::transport::{LinkConfig, TransportLink};

#[test]
fn realtime_tuning_values() {
    let c = LinkConfig::realtime();
    assert_eq!(c.linger_ms, 0);
    assert!(c.immediate);
    assert_eq!(c.send_high_water_mark, 1000);
    assert_eq!(c.receive_high_water_mark, 1000);
}

#[test]
fn guard_is_mutually_exclusive() {
    let mut link = TransportLink::new();
    assert!(link.try_acquire_for_relay());
    // While the relay round trip is in flight, the receive loop cannot get in.
    assert!(!link.try_acquire_for_receiver());
    // Nor can a second relay call: it drops its message instead.
    assert!(!link.try_acquire_for_relay());
    link.release_from_relay();
    assert!(link.try_acquire_for_receiver());
    // While a receive is in flight, a relay call fails.
    assert!(!link.try_acquire_for_relay());
    link.release_from_receiver();
    assert!(link.try_acquire_for_relay());
    link.release_from_relay();
}

#[test]
fn new_link_carries_realtime_tuning() {
    let link = TransportLink::new();
    let c = link.config();
    assert_eq!(c.linger_ms, 0);
    assert!(c.immediate);
    assert_eq!(c.send_high_water_mark, 1000);
    assert_eq!(c.receive_high_water_mark, 1000);
}
