use ws_bridge::registry::ClientRegistry;

#[test]
fn membership_add_remove() {
    let mut reg = ClientRegistry::new();
    assert_eq!(reg.len(), 0);
    reg.add(1);
    reg.add(2);
    assert!(reg.is_member(1));
    assert!(reg.is_member(2));
    assert!(!reg.is_member(3));
    assert_eq!(reg.len(), 2);
    reg.remove(1);
    assert!(!reg.is_member(1));
    assert!(reg.is_member(2));
    assert_eq!(reg.len(), 1);
}

#[test]
fn add_is_idempotent() {
    let mut reg = ClientRegistry::new();
    reg.add(7);
    reg.add(7);
    assert_eq!(reg.len(), 1);
    assert!(reg.is_member(7));
}

#[test]
fn remove_absent_is_noop() {
    let mut reg = ClientRegistry::new();
    reg.add(1);
    reg.remove(99);
    assert_eq!(reg.len(), 1);
    assert!(reg.is_member(1));
}

#[test]
fn snapshot_holds_all_members() {
    let mut reg = ClientRegistry::new();
    reg.add(10);
    reg.add(20);
    reg.add(30);
    let snap = reg.snapshot();
    assert_eq!(snap.len(), 3);
    assert!(snap.contains(&10));
    assert!(snap.contains(&20));
    assert!(snap.contains(&30));
}

#[test]
fn broadcast_reaches_each_member_exactly_once() {
    let mut reg = ClientRegistry::new();
    reg.add(1);
    reg.add(2);
    reg.add(3);
    let plan = reg.broadcast("hello");
    assert_eq!(plan.len(), 3);
    for id in [1u64, 2, 3] {
        let n = plan.iter().filter(|d| d.session == id).count();
        assert_eq!(n, 1);
    }
    for d in plan.iter() {
        assert_eq!(d.text, "hello");
    }
}

#[test]
fn broadcast_with_no_members_is_empty() {
    let reg = ClientRegistry::new();
    let plan = reg.broadcast("anyone?");
    assert!(plan.is_empty());
}

#[test]
fn removed_member_gets_no_delivery() {
    let mut reg = ClientRegistry::new();
    reg.add(1);
    reg.add(2);
    reg.remove(1);
    let plan = reg.broadcast("late");
    assert_eq!(plan.len(), 1);
    assert_eq!(plan[0].session, 2);
    assert!(plan.iter().all(|d| d.session != 1));
}
