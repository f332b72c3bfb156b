use uring_reactor::error::Error;
use uring_reactor::slot::{SlotTable, NO_SLOT_TAG, PARK_TAG, TIMER_TAG};

#[test]
fn encode_tag_even_nonzero_distinct() {
    let mut t: SlotTable<u32> = SlotTable::new();
    let a = t.create(10);
    let b = t.create(20);
    let ta = t.encode_tag(a);
    let tb = t.encode_tag(b);
    assert_ne!(ta, tb);
    assert_ne!(ta, NO_SLOT_TAG);
    assert_ne!(tb, NO_SLOT_TAG);
    assert_eq!(ta % 2, 0);
    assert_eq!(tb % 2, 0);
    assert_ne!(ta, TIMER_TAG);
    assert_ne!(ta, PARK_TAG);
}

#[test]
fn encode_tag_exact_values() {
    let mut t: SlotTable<u32> = SlotTable::new();
    let a = t.create(0);
    let b = t.create(0);
    let c = t.create(0);
    // the tag of slot `i` is 2 * (i + 1)
    assert_eq!(t.encode_tag(a), 2);
    assert_eq!(t.encode_tag(b), 4);
    assert_eq!(t.encode_tag(c), 6);
}

#[test]
fn tag_round_trip() {
    let mut t: SlotTable<u32> = SlotTable::new();
    let a = t.create(1);
    let b = t.create(2);
    let c = t.create(3);
    assert_eq!(t.decode_tag(t.encode_tag(a)), a);
    assert_eq!(t.decode_tag(t.encode_tag(b)), b);
    assert_eq!(t.decode_tag(t.encode_tag(c)), c);
}

#[test]
fn deliver_stores_outcome_and_returns_waiter() {
    let mut t: SlotTable<u32> = SlotTable::new();
    let id = t.create(7);
    t.set_waiter(id, 42);
    let w = t.deliver(id, 13, 5).unwrap();
    assert_eq!(w, Some(42));
    let (res, flags, payload) = t.take_completed(id);
    assert_eq!(res, 13);
    assert_eq!(flags, 5);
    assert_eq!(payload, 7);
}

#[test]
fn deliver_at_most_once() {
    let mut t: SlotTable<u32> = SlotTable::new();
    let id = t.create(7);
    assert!(t.deliver(id, 1, 0).is_ok());
    // a second completion for the same slot is rejected, not applied
    assert_eq!(t.deliver(id, 2, 0), Err(Error::ProtocolViolation));
    let (res, _, _) = t.take_completed(id);
    assert_eq!(res, 1);
}

#[test]
fn deliver_without_waiter_is_picked_up_later() {
    let mut t: SlotTable<u32> = SlotTable::new();
    let id = t.create(9);
    let w = t.deliver(id, 4, 0).unwrap();
    assert_eq!(w, None);
    let (res, _, payload) = t.take_completed(id);
    assert_eq!(res, 4);
    assert_eq!(payload, 9);
}

#[test]
fn deliver_to_vacant_cell_is_violation() {
    let mut t: SlotTable<u32> = SlotTable::new();
    let id = t.create(7);
    assert_eq!(t.abort(id), Some(7));
    assert_eq!(t.deliver(id, 1, 0), Err(Error::ProtocolViolation));
    assert_eq!(t.deliver(id + 5, 1, 0), Err(Error::ProtocolViolation));
}

#[test]
fn abort_reclaims_payload() {
    let mut t: SlotTable<Vec<u8>> = SlotTable::new();
    let id = t.create(vec![1, 2, 3]);
    assert_eq!(t.abort(id), Some(vec![1, 2, 3]));
    // the cell stays vacant
    assert_eq!(t.abort(id), None);
}
