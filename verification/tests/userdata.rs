use std::cell::Cell;
use std::rc::Rc;

use wlc::UserData;

#[test]
fn set_then_get_returns_what_was_set() {
    let mut store: UserData<i32> = UserData::new();
    store.set_user_data(3, 42);
    let ticket = store.user_data(3).unwrap();
    assert_eq!(*store.read(&ticket), 42);
    store.release(ticket);
}

#[test]
fn get_on_empty_slot_returns_nothing() {
    let mut store: UserData<i32> = UserData::new();
    assert!(store.user_data(3).is_none());
}

/// A payload that counts how often it is dropped.
struct Counted {
    drops: Rc<Cell<u32>>,
}

impl Drop for Counted {
    fn drop(&mut self) {
        self.drops.set(self.drops.get() + 1);
    }
}

#[test]
fn set_again_drops_the_previous_value_exactly_once() {
    let drops = Rc::new(Cell::new(0));
    let mut store: UserData<Counted> = UserData::new();
    store.set_user_data(3, Counted { drops: drops.clone() });
    assert_eq!(drops.get(), 0);
    store.set_user_data(3, Counted { drops: drops.clone() });
    assert_eq!(drops.get(), 1);
    store.clear_user_data(3);
    assert_eq!(drops.get(), 2);
}

#[test]
fn try_take_fails_while_a_shared_reference_is_alive() {
    let mut store: UserData<i32> = UserData::new();
    store.set_user_data(3, 42);
    let ticket = store.user_data(3).unwrap();
    assert!(store.try_take_user_data(3).is_none());

    // The slot is left intact: it can still be read.
    assert_eq!(*store.read(&ticket), 42);

    store.release(ticket);
    assert_eq!(store.try_take_user_data(3), Some(42));
    assert!(store.user_data(3).is_none());
}

#[test]
fn take_after_get_and_release() {
    let mut store: UserData<i32> = UserData::new();
    store.set_user_data(3, 42);
    let ticket = store.user_data(3).unwrap();
    assert_eq!(*store.read(&ticket), 42);
    store.release(ticket);
    assert_eq!(store.try_take_user_data(3), Some(42));
    assert!(store.user_data(3).is_none());
}

#[test]
fn try_take_on_empty_slot_returns_nothing() {
    let mut store: UserData<i32> = UserData::new();
    assert!(store.try_take_user_data(9).is_none());
}

#[test]
fn clear_is_idempotent() {
    let mut store: UserData<i32> = UserData::new();

    // Clearing a handle that holds no data is a no-op.
    store.clear_user_data(5);
    assert!(store.user_data(5).is_none());

    store.set_user_data(5, 7);
    store.clear_user_data(5);
    assert!(store.user_data(5).is_none());

    // Clearing a second time changes nothing either.
    store.clear_user_data(5);
    assert!(store.user_data(5).is_none());
}

#[test]
fn set_clears_the_previous_value_and_its_tickets() {
    let mut store: UserData<i32> = UserData::new();
    store.set_user_data(3, 1);
    let stale = store.user_data(3).unwrap();
    store.set_user_data(3, 2);

    // The stale ticket belongs to the gone occupancy; the new value can be
    // taken at once, since its own share count starts at zero.
    assert_eq!(store.try_take_user_data(3), Some(2));
    store.release(stale);
}

#[test]
fn slots_of_different_handles_are_independent() {
    let mut store: UserData<i32> = UserData::new();
    store.set_user_data(1, 10);
    store.set_user_data(2, 20);
    let t1 = store.user_data(1).unwrap();
    assert!(store.try_take_user_data(2) == Some(20));
    assert_eq!(*store.read(&t1), 10);
    store.release(t1);
    assert_eq!(store.try_take_user_data(1), Some(10));
}
