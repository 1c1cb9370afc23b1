use wlc::{Output, Registry, View};

#[test]
fn weak_references_taken_twice_are_equal_and_in_lockstep() {
    let mut registry = Registry::new();
    let view = View::from_handle(5);
    let w1 = view.weak_reference(&mut registry);
    let w2 = view.weak_reference(&mut registry);
    assert!(w1 == w2);
    assert!(w1.upgrade(&registry).is_some());
    assert!(w2.upgrade(&registry).is_some());
    registry.on_destroyed(5);
    assert!(w1.upgrade(&registry).is_none());
    assert!(w2.upgrade(&registry).is_none());
}

#[test]
fn upgrade_succeeds_until_destroyed() {
    let mut registry = Registry::new();
    let view = View::from_handle(7);
    let w = view.weak_reference(&mut registry);
    assert!(w.upgrade(&registry).is_some());
    registry.on_destroyed(7);
    assert!(w.upgrade(&registry).is_none());
}

#[test]
fn destroyed_handle_is_not_resurrected_by_reuse() {
    let mut registry = Registry::new();
    let view = View::from_handle(11);
    let old_weak = view.weak_reference(&mut registry);
    registry.on_destroyed(11);
    assert!(old_weak.upgrade(&registry).is_none());

    // The backend reuses the numeric handle for a new view.
    let new_weak = view.weak_reference(&mut registry);
    assert!(new_weak.upgrade(&registry).is_some());
    assert!(old_weak.upgrade(&registry).is_none());

    registry.on_destroyed(11);
    assert!(new_weak.upgrade(&registry).is_none());
    assert!(old_weak.upgrade(&registry).is_none());
}

#[test]
fn run_returns_none_after_destruction() {
    let mut registry = Registry::new();
    let output = Output::from_handle(3);
    let w = output.weak_reference(&mut registry);
    let seen = w.run(&registry, |o: &Output| o.handle());
    assert_eq!(seen, Some(3));
    registry.on_destroyed(3);
    let seen = w.run(&registry, |o: &Output| o.handle());
    assert_eq!(seen, None);
}

#[test]
fn upgraded_reference_carries_the_captured_handle() {
    let mut registry = Registry::new();
    let view = View::from_handle(21);
    let w = view.weak_reference(&mut registry);
    let upgraded = w.upgrade(&registry).unwrap();
    assert_eq!(upgraded.handle(), 21);
    assert!(upgraded == view);
}

#[test]
fn equality_is_by_handle_only() {
    let mut registry = Registry::new();
    let v1 = View::from_handle(4);
    let v2 = View::from_handle(4);
    let v3 = View::from_handle(6);
    assert!(v1 == v2);
    assert!(v1 != v3);

    let w1 = v1.weak_reference(&mut registry);
    let w2 = v2.weak_reference(&mut registry);
    assert!(w1 == w2);
    assert!(w1 == v1);
    assert!(v1 == w2);

    // A weak reference of a later incarnation of the same handle still
    // compares equal: equality goes by the handle alone.
    registry.on_destroyed(4);
    let w3 = v1.weak_reference(&mut registry);
    assert!(w1 == w3);
    assert!(w1.upgrade(&registry).is_none());
    assert!(w3.upgrade(&registry).is_some());
}
