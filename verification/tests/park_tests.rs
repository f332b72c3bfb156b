use uring_reactor::error::Error;
use uring_reactor::reactor::{OpKind, Reactor, TimerCmd};
use uring_reactor::slot::{PARK_TAG, TIMER_TAG};

fn fresh() -> Reactor {
    Reactor::new(64, 100, 101)
}

#[test]
fn completion_state_starts_with_watches_unarmed() {
    let s = uring_reactor::reactor::CompletionState::new();
    assert!(s.requeue_timer);
    assert!(s.requeue_park);
    assert!(!s.timer_pending);
    assert_eq!(s.active_wait, 0);
    assert!(!s.park.signaled);
}

#[test]
fn park_on_idle_reactor_blocks_and_arms_watches() {
    let mut r = fresh();
    let plan = r.park(&vec![]).unwrap();
    // both auxiliary watches were queued before deciding to block
    assert_eq!(r.sq.len(), 2);
    assert!(matches!(r.sq[0].op, OpKind::PollAdd));
    assert_eq!(r.sq[0].fd, 100);
    assert_eq!(r.sq[0].user_data, TIMER_TAG);
    assert!(matches!(r.sq[1].op, OpKind::PollAdd));
    assert_eq!(r.sq[1].fd, 101);
    assert_eq!(r.sq[1].user_data, PARK_TAG);
    assert!(!r.state.requeue_timer);
    assert!(!r.state.requeue_park);
    let enter = plan.enter.unwrap();
    assert_eq!(enter.to_submit, 2);
    assert_eq!(enter.min_complete, 1);
    assert!(enter.getevents);
    assert_eq!(plan.timer_cmd, TimerCmd::Keep);
}

#[test]
fn park_timeout_zero_never_blocks_nor_arms_timer() {
    let mut r = fresh();
    let plan = r.park_timeout(0, &vec![]).unwrap();
    assert_eq!(plan.timer_cmd, TimerCmd::Keep);
    // nothing to submit and no wait: the kernel call is skipped entirely
    assert!(plan.enter.is_none());
    assert_eq!(r.sq.len(), 0);
}

#[test]
fn park_timeout_arms_oneshot_timer() {
    let mut r = fresh();
    let plan = r.park_timeout(1_000_000, &vec![]).unwrap();
    assert_eq!(plan.timer_cmd, TimerCmd::Oneshot(1_000_000));
    let enter = plan.enter.unwrap();
    assert!(enter.getevents);
}

#[test]
fn park_never_blocks_after_fresh_completions() {
    let mut r = fresh();
    // arm the watches in a first turn
    let first = r.park(&vec![]).unwrap();
    assert!(first.enter.unwrap().getevents);
    let _submitted = r.take_pending();
    // the timer fires; the next turn drains it and must not block
    let plan = r.park(&vec![(TIMER_TAG, 0, 0)]).unwrap();
    match plan.enter {
        None => {}
        Some(e) => assert!(!e.getevents),
    }
}

#[test]
fn unpark_vetoes_blocking() {
    let mut r = fresh();
    r.unpark();
    let plan = r.park(&vec![]).unwrap();
    match plan.enter {
        None => {}
        Some(e) => assert!(!e.getevents),
    }
}

#[test]
fn full_ring_forces_poll_only() {
    // a ring that can hold nothing: auxiliary watches cannot be armed, so
    // the turn must degrade to a poll
    let mut r = Reactor::new(0, 100, 101);
    let plan = r.park(&vec![]).unwrap();
    assert!(plan.enter.is_none());
    assert!(r.state.requeue_timer);
    assert!(r.state.requeue_park);
}

#[test]
fn timer_completion_marks_rearm_and_pending() {
    let mut r = fresh();
    r.queue_timer_poll().unwrap();
    assert!(!r.state.requeue_timer);
    let d = r.dispatch_completion(TIMER_TAG, 0, 0).unwrap();
    assert!(matches!(d, uring_reactor::reactor::Dispatch::TimerFired));
    assert!(r.state.requeue_timer);
    assert!(r.state.timer_pending);
    assert_eq!(r.state.active_wait, 0);
}

#[test]
fn park_wake_completion_clears_signal() {
    let mut r = fresh();
    r.queue_park_read().unwrap();
    r.unpark();
    assert!(r.state.park.signaled);
    let d = r.dispatch_completion(PARK_TAG, 0, 0).unwrap();
    assert!(matches!(d, uring_reactor::reactor::Dispatch::ParkWake));
    assert!(!r.state.park.signaled);
    assert!(r.state.requeue_park);
}

#[test]
fn open_ended_park_after_timer_fire_disarms() {
    let mut r = fresh();
    r.queue_timer_poll().unwrap();
    let _ = r.dispatch_completion(TIMER_TAG, 0, 0).unwrap();
    assert!(r.state.timer_pending);
    let plan = r.park(&vec![]).unwrap();
    assert_eq!(plan.timer_cmd, TimerCmd::Disarm);
    assert!(!r.state.timer_pending);
}

#[test]
fn zero_tag_completion_is_discarded() {
    let mut r = fresh();
    let d = r.dispatch_completion(0, -22, 0).unwrap();
    assert!(matches!(d, uring_reactor::reactor::Dispatch::Ignored));
    assert_eq!(r.state.active_wait, 0);
}

#[test]
fn unknown_odd_tag_is_fatal_violation() {
    let mut r = fresh();
    r.queue_timer_poll().unwrap();
    assert_eq!(r.dispatch_completion(0x5, 0, 0).unwrap_err(), Error::ProtocolViolation);
}

#[test]
fn completion_without_outstanding_work_is_violation() {
    let mut r = fresh();
    assert_eq!(r.dispatch_completion(TIMER_TAG, 0, 0).unwrap_err(), Error::ProtocolViolation);
}

#[test]
fn duplicate_completion_from_misbehaving_ring_is_detected() {
    let mut r = fresh();
    let file = uring_reactor::file::File::new(5);
    let aw = r.async_write(file, 0, vec![1]).unwrap();
    let tag = r.sq[0].user_data;
    let _ = r.take_pending();
    // a ring that echoes the same tag twice: the second must be rejected
    let err = r.park(&vec![(tag, 1, 0), (tag, 1, 0)]).unwrap_err();
    assert_eq!(err, Error::ProtocolViolation);
    drop(aw);
}
