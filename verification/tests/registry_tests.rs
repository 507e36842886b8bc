use rendezvous_relay::PairError;
use rendezvous_relay::protocol::{resolve_wait, WaitEvent};
use rendezvous_relay::registry::Registry;

#[test]
fn one_create_wins_conflict_for_the_rest() {
    let mut reg = Registry::new();
    let id = String::from("abc");
    assert_eq!(reg.try_register(&id, 1), Ok(()));
    assert_eq!(reg.try_register(&id, 2), Err(PairError::Conflict));
    assert_eq!(reg.try_register(&id, 3), Err(PairError::Conflict));
    assert!(reg.is_waiting(&id));
}

#[test]
fn join_without_create_is_not_found() {
    let mut reg = Registry::new();
    let id = String::from("xyz");
    assert_eq!(reg.take_registration(&id), Err(PairError::NotFound));
    assert!(!reg.is_waiting(&id));
}

#[test]
fn join_claims_the_waiting_slot_exactly_once() {
    let mut reg = Registry::new();
    let id = String::from("room");
    assert_eq!(reg.try_register(&id, 42), Ok(()));
    assert_eq!(reg.take_registration(&id), Ok(42));
    assert!(!reg.is_waiting(&id));
    assert_eq!(reg.take_registration(&id), Err(PairError::NotFound));
}

#[test]
fn independent_rooms_do_not_interfere() {
    let mut reg = Registry::new();
    let a = String::from("a");
    let b = String::from("b");
    assert_eq!(reg.try_register(&a, 1), Ok(()));
    assert_eq!(reg.try_register(&b, 2), Ok(()));
    assert_eq!(reg.take_registration(&a), Ok(1));
    assert!(reg.is_waiting(&b));
    assert_eq!(reg.take_registration(&b), Ok(2));
}

#[test]
fn cancellation_is_keyed_by_slot_handle() {
    let mut reg = Registry::new();
    let id = String::from("r");
    assert_eq!(reg.try_register(&id, 5), Ok(()));
    assert!(!reg.remove_if_present(&id, 6));
    assert!(reg.is_waiting(&id));
    assert!(reg.remove_if_present(&id, 5));
    assert!(!reg.is_waiting(&id));
    assert!(!reg.remove_if_present(&id, 5));
}

#[test]
fn stale_cancellation_leaves_a_new_registration_alone() {
    let mut reg = Registry::new();
    let id = String::from("r");
    assert_eq!(reg.try_register(&id, 1), Ok(()));
    assert_eq!(reg.take_registration(&id), Ok(1));
    assert_eq!(reg.try_register(&id, 2), Ok(()));
    // The first creator's cancellation arrives late: its entry is long gone.
    assert!(!reg.remove_if_present(&id, 1));
    assert!(reg.is_waiting(&id));
    assert_eq!(reg.take_registration(&id), Ok(2));
}

#[test]
fn creator_disconnect_while_waiting_frees_the_room() {
    let mut reg = Registry::new();
    let id = String::from("r1");
    assert_eq!(reg.try_register(&id, 9), Ok(()));
    let paired = resolve_wait(&mut reg, &id, 9, WaitEvent::ConnectionEnded);
    assert!(!paired);
    assert_eq!(reg.take_registration(&id), Err(PairError::NotFound));
    assert_eq!(reg.try_register(&id, 10), Ok(()));
}

#[test]
fn abandoned_handoff_ends_the_session_without_relay() {
    let mut reg = Registry::new();
    let id = String::from("r2");
    assert_eq!(reg.try_register(&id, 3), Ok(()));
    // The joiner claimed the entry, then vanished before delivering.
    assert_eq!(reg.take_registration(&id), Ok(3));
    let paired = resolve_wait(&mut reg, &id, 3, WaitEvent::HandoffAbandoned);
    assert!(!paired);
    assert!(!reg.is_waiting(&id));
}

#[test]
fn delivered_handoff_pairs_and_leaves_registry_alone() {
    let mut reg = Registry::new();
    let id = String::from("r3");
    assert_eq!(reg.try_register(&id, 8), Ok(()));
    assert_eq!(reg.take_registration(&id), Ok(8));
    let paired = resolve_wait(&mut reg, &id, 8, WaitEvent::HandoffDelivered);
    assert!(paired);
    assert!(!reg.is_waiting(&id));
}
