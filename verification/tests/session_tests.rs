use ws_bridge::session::{Session, SessionState};

#[test]
fn lifecycle_runs_in_order() {
    let mut s = Session::new(42);
    assert_eq!(s.id(), 42);
    assert_eq!(s.state(), SessionState::Connecting);
    assert!(!s.is_active());
    s.activate();
    assert_eq!(s.state(), SessionState::Active);
    assert!(s.is_active());
    s.close();
    assert_eq!(s.state(), SessionState::Closed);
    assert!(!s.is_active());
}

#[test]
fn identity_survives_transitions() {
    let mut s = Session::new(7);
    s.activate();
    assert_eq!(s.id(), 7);
    s.close();
    assert_eq!(s.id(), 7);
}
