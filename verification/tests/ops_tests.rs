use uring_reactor::error::Error;
use uring_reactor::file::File;
use uring_reactor::ops::{AsyncReadState, IoPoll, StreamPoll};
use uring_reactor::reactor::{OpKind, Reactor};

fn fresh() -> Reactor {
    Reactor::new(64, 100, 101)
}

#[test]
fn end_to_end_write_resolves_with_payload() {
    let mut r = fresh();
    let mut aw = r.async_write(File::new(5), 0, vec![1, 2, 3]).unwrap();
    assert_eq!(r.sq.len(), 1);
    assert!(matches!(r.sq[0].op, OpKind::WriteVec));
    assert_eq!(r.sq[0].fd, 5);
    assert_eq!(r.sq[0].offset, 0);
    let tag = r.sq[0].user_data;
    let _submitted = r.take_pending();
    // nothing delivered yet: the future suspends
    assert_eq!(aw.poll(&mut r), IoPoll::NotReady);
    // the mock kernel reports 3 bytes written for the matching tag
    let plan = r.park(&vec![(tag, 3, 0)]).unwrap();
    match plan.enter {
        None => {}
        Some(e) => assert!(!e.getevents),
    }
    match aw.poll(&mut r) {
        IoPoll::Ready(n, buf, file) => {
            assert_eq!(n, 3);
            assert_eq!(buf, vec![1, 2, 3]);
            assert_eq!(file, File::new(5));
        }
        other => panic!("unexpected poll outcome: {:?}", other),
    }
}

#[test]
fn read_on_zero_capacity_ring_returns_payload_and_no_tag() {
    let mut r = Reactor::new(0, 100, 101);
    let ar = r.async_read(File::new(9), 4, vec![7, 7]);
    // the failure is synchronous and identity-preserving
    match &ar.state {
        AsyncReadState::InitFailed(e, buf, file) => {
            assert_eq!(*e, Error::SubmissionFull);
            assert_eq!(*buf, vec![7, 7]);
            assert_eq!(*file, File::new(9));
        }
        _ => panic!("expected an immediate failure"),
    }
    // no slot was created, so no tag was ever generated
    assert_eq!(r.slots.len(), 0);
    assert_eq!(r.sq.len(), 0);
    // the first poll hands the payload back
    let mut ar = ar;
    match ar.poll(&mut r) {
        IoPoll::Failed(e, buf, file) => {
            assert_eq!(e, Error::SubmissionFull);
            assert_eq!(buf, vec![7, 7]);
            assert_eq!(file, File::new(9));
        }
        other => panic!("unexpected poll outcome: {:?}", other),
    }
}

#[test]
fn write_on_zero_capacity_ring_returns_payload() {
    let mut r = Reactor::new(0, 100, 101);
    let (e, buf, file) = r.async_write(File::new(3), 0, vec![1]).unwrap_err();
    assert_eq!(e, Error::SubmissionFull);
    assert_eq!(buf, vec![1]);
    assert_eq!(file, File::new(3));
    assert_eq!(r.slots.len(), 0);
}

#[test]
fn two_operations_distinct_tags_reverse_delivery() {
    let mut r = fresh();
    let mut a = r.async_write(File::new(1), 0, vec![10]).unwrap();
    let mut b = r.async_write(File::new(2), 0, vec![20, 21]).unwrap();
    let entries = r.take_pending();
    assert_eq!(entries.len(), 2);
    let tag_a = entries[0].user_data;
    let tag_b = entries[1].user_data;
    assert_ne!(tag_a, tag_b);
    // deliver in reverse order
    let _ = r.park(&vec![(tag_b, 2, 0), (tag_a, 1, 0)]).unwrap();
    match a.poll(&mut r) {
        IoPoll::Ready(n, buf, file) => {
            assert_eq!(n, 1);
            assert_eq!(buf, vec![10]);
            assert_eq!(file, File::new(1));
        }
        other => panic!("unexpected poll outcome: {:?}", other),
    }
    match b.poll(&mut r) {
        IoPoll::Ready(n, buf, file) => {
            assert_eq!(n, 2);
            assert_eq!(buf, vec![20, 21]);
            assert_eq!(file, File::new(2));
        }
        other => panic!("unexpected poll outcome: {:?}", other),
    }
}

#[test]
fn negative_result_resolves_to_failure_with_payload() {
    let mut r = fresh();
    let mut ar = r.async_read(File::new(4), 0, vec![0; 8]);
    let entries = r.take_pending();
    assert!(matches!(entries[0].op, OpKind::ReadVec));
    let tag = entries[0].user_data;
    let _ = r.park(&vec![(tag, -9, 0)]).unwrap();
    match ar.poll(&mut r) {
        IoPoll::Failed(e, buf, file) => {
            assert_eq!(e, Error::OperationFailed(-9));
            assert_eq!(buf, vec![0; 8]);
            assert_eq!(file, File::new(4));
        }
        other => panic!("unexpected poll outcome: {:?}", other),
    }
}

#[test]
fn poll_stream_rearm_cycle() {
    let mut r = fresh();
    let mut st = r.async_poll(7, 0x1).unwrap();
    assert!(!st.active);
    // first poll arms the watch exactly once
    assert_eq!(st.poll(&mut r), StreamPoll::NotReady);
    assert!(st.active);
    assert_eq!(r.sq.len(), 1);
    assert!(matches!(r.sq[0].op, OpKind::PollAdd));
    assert_eq!(r.sq[0].fd, 7);
    assert_eq!(r.sq[0].poll_flags, 0x1);
    let tag = r.sq[0].user_data;
    let _ = r.take_pending();
    // still armed, nothing delivered
    assert_eq!(st.poll(&mut r), StreamPoll::NotReady);
    assert_eq!(r.sq.len(), 0);
    // readiness arrives
    let _ = r.park(&vec![(tag, 0x1, 0)]).unwrap();
    assert_eq!(st.poll(&mut r), StreamPoll::Ready(0x1));
    // after yielding the stream is inactive; the next poll re-submits once
    assert!(!st.active);
    let before = r.sq.len();
    assert_eq!(st.poll(&mut r), StreamPoll::NotReady);
    assert!(st.active);
    assert_eq!(r.sq.len(), before + 1);
    assert_eq!(r.sq[before].user_data, tag);
}

#[test]
fn poll_stream_negative_result_fails() {
    let mut r = fresh();
    let mut st = r.async_poll(7, 0x4).unwrap();
    assert_eq!(st.poll(&mut r), StreamPoll::NotReady);
    let tag = r.take_pending()[0].user_data;
    let _ = r.park(&vec![(tag, -77, 0)]).unwrap();
    assert_eq!(st.poll(&mut r), StreamPoll::Failed(Error::OperationFailed(-77)));
    assert!(!st.active);
    // the stream is terminated for good and never re-arms; its slot can
    // still be reclaimed on teardown
    assert!(st.terminated);
    assert!(r.cancel_poll(st));
    assert_eq!(r.sq.len(), 0);
}

#[test]
fn cancel_inactive_poll_reclaims_slot() {
    let mut r = fresh();
    let st = r.async_poll(7, 0x1).unwrap();
    let id = st.id;
    assert!(r.cancel_poll(st));
    // the slot is vacant now: a late completion for it would be rejected
    let tag = 2 * (id as u64 + 1);
    r.queue_timer_poll().unwrap(); // make something outstanding
    assert_eq!(r.dispatch_completion(tag, 1, 0).unwrap_err(), Error::ProtocolViolation);
}

#[test]
fn cancel_active_poll_queues_fire_and_forget_removal() {
    let mut r = fresh();
    let mut st = r.async_poll(7, 0x1).unwrap();
    assert_eq!(st.poll(&mut r), StreamPoll::NotReady);
    let tag = r.take_pending()[0].user_data;
    assert!(r.cancel_poll(st));
    assert_eq!(r.sq.len(), 1);
    assert!(matches!(r.sq[0].op, OpKind::PollRemove));
    assert_eq!(r.sq[0].target, tag);
    assert_eq!(r.sq[0].user_data, 0);
    // the removal's own completion is discarded without bookkeeping
    let d = r.dispatch_completion(0, 0, 0).unwrap();
    assert!(matches!(d, uring_reactor::reactor::Dispatch::Ignored));
}

#[test]
fn waiter_is_resumed_exactly_once_through_park() {
    let mut r = fresh();
    let aw = r.async_write(File::new(5), 0, vec![1]).unwrap();
    let id = match aw.state {
        uring_reactor::ops::AsyncWriteState::Pending(id) => id,
        _ => panic!("expected a pending future"),
    };
    r.slots.set_waiter(id, 99);
    let tag = r.take_pending()[0].user_data;
    let plan = r.park(&vec![(tag, 1, 0)]).unwrap();
    assert_eq!(plan.woken, vec![99]);
    // a later turn wakes nobody for the same slot
    let plan2 = r.park(&vec![]).unwrap();
    assert_eq!(plan2.woken, Vec::<u64>::new());
}
