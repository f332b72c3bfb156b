use vstd::prelude::*;

use crate::error::Error;
use crate::file::File;
use crate::reactor::{
    poll_entry, poll_remove_entry, read_entry, write_entry, OpKind, Payload, Reactor,
    SubmissionEntry,
};
use crate::slot::{is_armed, is_completed, is_live, tag_of, Slot, NO_SLOT_TAG, SLOT_LIMIT};

verus! {

/// Result of polling a single-shot read or write future.  The buffer and
/// the file always travel back to the caller when the operation resolves,
/// on success and on failure alike.
#[derive(Debug, PartialEq, Eq)]
pub enum IoPoll {
    /// No outcome yet; poll again after the reactor delivered one.
    NotReady,
    /// The operation finished with this byte count.
    Ready(usize, Vec<u8>, File),
    /// The operation failed, synchronously or asynchronously.
    Failed(Error, Vec<u8>, File),
}

/// Result of polling a readiness stream.
#[derive(Clone, Copy, Debug, PartialEq, Eq)]
pub enum StreamPoll {
    /// No readiness event yet.
    NotReady,
    /// The readiness bits the kernel reported.
    Ready(u16),
    /// The stream failed and terminates.
    Failed(Error),
}

/// State of a single-shot read future.
#[derive(Debug)]
pub enum AsyncReadState {
    /// Waiting for the completion of this slot.
    Pending(usize),
    /// Submission never took effect; the payload is handed back on the
    /// first poll.
    InitFailed(Error, Vec<u8>, File),
    /// Resolved; polling again is a caller error.
    Closed,
}

/// Future of an `async_read` operation.
#[derive(Debug)]
pub struct AsyncRead {
    pub state: AsyncReadState,
}

/// State of a single-shot write future.
#[derive(Debug)]
pub enum AsyncWriteState {
    /// Waiting for the completion of this slot.
    Pending(usize),
    /// Resolved; polling again is a caller error.
    Closed,
}

/// Future of an `async_write` operation.
#[derive(Debug)]
pub struct AsyncWrite {
    pub state: AsyncWriteState,
}

/// A repeating readiness stream over one descriptor.
///
/// While `active`, a watch request tagged with this stream's slot is
/// outstanding in the kernel.  After each yielded item the stream is
/// inactive again; the next poll re-submits the watch exactly once.  A
/// negative kernel result terminates the stream for good.
#[derive(Debug)]
pub struct AsyncPoll {
    pub fd: i32,
    pub flags: u16,
    pub active: bool,
    /// Set once the kernel reported a negative result; a terminated
    /// stream yields nothing more, and polling it again is a caller
    /// error.
    pub terminated: bool,
    pub id: usize,
}

/// The slot carries a read/write payload (buffer plus file).
pub open spec fn io_slot(r: Reactor, id: int) -> bool {
    is_live(r.slots.slots@, id) && r.slots.slots@[id].unwrap().payload is Io
}

impl Reactor {
    /// Issue an asynchronous read of `buf.len()` bytes at `offset`.
    ///
    /// On success the returned future waits for the completion of a fresh
    /// slot whose tag went out with the queued request.  If the ring or the
    /// slot arena is full, nothing changes, no tag is ever produced, and
    /// the future resolves immediately with the very buffer and file that
    /// were passed in.
    pub fn async_read(&mut self, file: File, offset: u64, buf: Vec<u8>) -> (ar: AsyncRead)
        requires
            old(self).wf(),
            old(self).state.active_wait < usize::MAX,
        ensures
            final(self).wf(),
            old(self).same_ring(*final(self)),
            (old(self).sq@.len() >= old(self).sq_capacity || old(self).slots.spec_len()
                >= SLOT_LIMIT) ==> {
                &&& (ar.state matches AsyncReadState::InitFailed(e, b, f) && e
                    == Error::SubmissionFull && b == buf && f == file)
                &&& final(self).unchanged_from(*old(self))
            },
            (old(self).sq@.len() < old(self).sq_capacity && old(self).slots.spec_len()
                < SLOT_LIMIT) ==> {
                &&& (ar.state matches AsyncReadState::Pending(id) && id == old(
                    self,
                ).slots.spec_len())
                &&& final(self).slots.slots@ =~= old(self).slots.slots@.push(
                    Some(
                        (Slot {
                            payload: Payload::Io { buf, file },
                            outcome: None,
                            waiter: None,
                        }),
                    ),
                )
                &&& final(self).sq@ =~= old(self).sq@.push(
                    read_entry(file.fd, offset, (2 * (old(self).slots.spec_len() + 1)) as u64),
                )
                &&& final(self).sq@.last().user_data == tag_of(old(self).slots.spec_len())
                &&& final(self).state.active_wait == old(self).state.active_wait + 1
                &&& final(self).state.requeue_timer == old(self).state.requeue_timer
                &&& final(self).state.timer_pending == old(self).state.timer_pending
                &&& final(self).state.requeue_park == old(self).state.requeue_park
                &&& final(self).state.park == old(self).state.park
            },
    {
        let fd = file.as_raw_fd();
        if self.slots.len() >= SLOT_LIMIT || self.pending_count() >= self.sq_capacity {
            return AsyncRead { state: AsyncReadState::InitFailed(Error::SubmissionFull, buf, file) };
        }
        let id = self.slots.create(Payload::Io { buf, file });
        match self.queue_async_read(fd, offset, id) {
            Ok(_) => AsyncRead { state: AsyncReadState::Pending(id) },
            Err(_) => {
                proof {
                    assert(false);
                }
                unreached()
            },
        }
    }

    /// Issue an asynchronous write of `buf.len()` bytes at `offset`.
    ///
    /// Mirrors `async_read`; a synchronous failure returns the error
    /// together with the untouched buffer and file.
    pub fn async_write(&mut self, file: File, offset: u64, buf: Vec<u8>) -> (r: Result<
        AsyncWrite,
        (Error, Vec<u8>, File),
    >)
        requires
            old(self).wf(),
            old(self).state.active_wait < usize::MAX,
        ensures
            final(self).wf(),
            old(self).same_ring(*final(self)),
            (old(self).sq@.len() >= old(self).sq_capacity || old(self).slots.spec_len()
                >= SLOT_LIMIT) ==> {
                &&& (r matches Err((e, b, f)) && e == Error::SubmissionFull && b == buf && f
                    == file)
                &&& final(self).unchanged_from(*old(self))
            },
            (old(self).sq@.len() < old(self).sq_capacity && old(self).slots.spec_len()
                < SLOT_LIMIT) ==> {
                &&& (r matches Ok(aw) && aw.state matches AsyncWriteState::Pending(id) && id == old(
                    self,
                ).slots.spec_len())
                &&& final(self).slots.slots@ =~= old(self).slots.slots@.push(
                    Some(
                        (Slot {
                            payload: Payload::Io { buf, file },
                            outcome: None,
                            waiter: None,
                        }),
                    ),
                )
                &&& final(self).sq@ =~= old(self).sq@.push(
                    write_entry(file.fd, offset, (2 * (old(self).slots.spec_len() + 1)) as u64),
                )
                &&& final(self).sq@.last().user_data == tag_of(old(self).slots.spec_len())
                &&& final(self).state.active_wait == old(self).state.active_wait + 1
                &&& final(self).state.requeue_timer == old(self).state.requeue_timer
                &&& final(self).state.timer_pending == old(self).state.timer_pending
                &&& final(self).state.requeue_park == old(self).state.requeue_park
                &&& final(self).state.park == old(self).state.park
            },
    {
        let fd = file.as_raw_fd();
        if self.slots.len() >= SLOT_LIMIT || self.pending_count() >= self.sq_capacity {
            return Err((Error::SubmissionFull, buf, file));
        }
        let id = self.slots.create(Payload::Io { buf, file });
        match self.queue_async_write(fd, offset, id) {
            Ok(_) => Ok(AsyncWrite { state: AsyncWriteState::Pending(id) }),
            Err(_) => {
                proof {
                    assert(false);
                }
                unreached()
            },
        }
    }

    /// Open a readiness stream over `fd` for the given interest bits.
    ///
    /// Nothing is submitted yet: the first poll of the stream arms the
    /// watch.  Fails only when the slot arena is exhausted.
    pub fn async_poll(&mut self, fd: i32, flags: u16) -> (r: Result<AsyncPoll, Error>)
        requires
            old(self).wf(),
        ensures
            final(self).wf(),
            old(self).same_ring(*final(self)),
            old(self).slots.spec_len() >= SLOT_LIMIT ==> (r == Err::<AsyncPoll, Error>(
                Error::SubmissionFull,
            ) && final(self).unchanged_from(*old(self))),
            old(self).slots.spec_len() < SLOT_LIMIT ==> {
                &&& (r matches Ok(p) && p.fd == fd && p.flags == flags && !p.active
                    && !p.terminated && p.id == old(self).slots.spec_len())
                &&& final(self).slots.slots@ =~= old(self).slots.slots@.push(
                    Some((Slot { payload: Payload::Poll, outcome: None, waiter: None })),
                )
                &&& final(self).sq@ == old(self).sq@
                &&& final(self).state == old(self).state
            },
    {
        if self.slots.len() >= SLOT_LIMIT {
            return Err(Error::SubmissionFull);
        }
        let id = self.slots.create(Payload::Poll);
        Ok(AsyncPoll { fd, flags, active: false, terminated: false, id })
    }

    /// Tear down a readiness stream.
    ///
    /// An inactive stream's slot is reclaimed at once.  For an active one
    /// the kernel still holds the watch's tag, so the slot must stay until
    /// its completion arrives; a best-effort fire-and-forget removal
    /// request is queued when the ring has room, and skipped otherwise.
    pub fn cancel_poll(&mut self, p: AsyncPoll) -> (cancelled: bool)
        requires
            old(self).wf(),
            is_live(old(self).slots.slots@, p.id as int),
        ensures
            final(self).wf(),
            old(self).same_ring(*final(self)),
            final(self).state == old(self).state,
            !p.active ==> {
                &&& final(self).slots.slots@ =~= old(self).slots.slots@.update(p.id as int, None)
                &&& final(self).sq@ == old(self).sq@
                &&& cancelled
            },
            p.active && old(self).sq@.len() < old(self).sq_capacity ==> {
                &&& final(self).slots.slots@ == old(self).slots.slots@
                &&& final(self).sq@ =~= old(self).sq@.push(
                    poll_remove_entry((2 * (p.id + 1)) as u64),
                )
                &&& cancelled
            },
            p.active && old(self).sq@.len() >= old(self).sq_capacity ==> (
            final(self).unchanged_from(*old(self)) && !cancelled),
    {
        if !p.active {
            let _ = self.slots.abort(p.id);
            return true;
        }
        if self.pending_count() >= self.sq_capacity {
            return false;
        }
        let tag = self.slots.encode_tag(p.id);
        self.sq.push(
            SubmissionEntry {
                op: OpKind::PollRemove,
                fd: -1i32,
                offset: 0,
                poll_flags: 0,
                target: tag,
                user_data: NO_SLOT_TAG,
            },
        );
        true
    }
}

impl AsyncRead {
    /// Poll the read future against the reactor that owns its slot.
    ///
    /// Resolves at most once: once the outcome (or the synchronous
    /// failure) is handed out, the future is closed and must not be polled
    /// again.
    pub fn poll(&mut self, r: &mut Reactor) -> (out: IoPoll)
        requires
            !(old(self).state is Closed),
            old(r).wf(),
            old(self).state matches AsyncReadState::Pending(id) ==> io_slot(*old(r), id as int),
        ensures
            final(r).wf(),
            old(r).same_ring(*final(r)),
            final(r).sq@ == old(r).sq@,
            final(r).state == old(r).state,
            old(self).state matches AsyncReadState::InitFailed(e, b, f) ==> {
                &&& (out matches IoPoll::Failed(e2, b2, f2) && e2 == e && b2 == b && f2 == f)
                &&& final(self).state is Closed
                &&& final(r).unchanged_from(*old(r))
            },
            old(self).state matches AsyncReadState::Pending(id) ==> (is_armed(
                old(r).slots.slots@,
                id as int,
            ) ==> {
                &&& out is NotReady
                &&& final(self).state == old(self).state
                &&& final(r).unchanged_from(*old(r))
            }),
            old(self).state matches AsyncReadState::Pending(id) ==> (is_completed(
                old(r).slots.slots@,
                id as int,
            ) ==> {
                &&& final(self).state is Closed
                &&& final(r).slots.slots@ =~= old(r).slots.slots@.update(id as int, None)
                &&& (old(r).slots.slots@[id as int].unwrap().payload matches Payload::Io {
                    buf: pb,
                    file: pf,
                } ==> {
                    let (res, fl) = old(r).slots.slots@[id as int].unwrap().outcome.unwrap();
                    &&& res < 0 ==> (out matches IoPoll::Failed(e2, b2, f2) && e2
                        == Error::OperationFailed(res) && b2 == pb && f2 == pf)
                    &&& res >= 0 ==> (out matches IoPoll::Ready(n, b2, f2) && n == res && b2 == pb
                        && f2 == pf)
                })
            }),
    {
        let mut st = AsyncReadState::Closed;
        core::mem::swap(&mut self.state, &mut st);
        match st {
            AsyncReadState::Pending(id) => {
                match r.slots.outcome_of(id) {
                    None => {
                        self.state = AsyncReadState::Pending(id);
                        IoPoll::NotReady
                    },
                    Some(_) => {
                        let (res, _flags, payload) = r.slots.take_completed(id);
                        match payload {
                            Payload::Io { buf, file } => {
                                if res < 0 {
                                    IoPoll::Failed(Error::OperationFailed(res), buf, file)
                                } else {
                                    IoPoll::Ready(res as usize, buf, file)
                                }
                            },
                            Payload::Poll => {
                                proof {
                                    assert(false);
                                }
                                unreached()
                            },
                        }
                    },
                }
            },
            AsyncReadState::InitFailed(e, buf, file) => IoPoll::Failed(e, buf, file),
            AsyncReadState::Closed => {
                proof {
                    assert(false);
                }
                unreached()
            },
        }
    }
}

impl AsyncWrite {
    /// Poll the write future against the reactor that owns its slot.
    /// Resolves at most once, exactly as the read future does.
    pub fn poll(&mut self, r: &mut Reactor) -> (out: IoPoll)
        requires
            !(old(self).state is Closed),
            old(r).wf(),
            old(self).state matches AsyncWriteState::Pending(id) ==> io_slot(*old(r), id as int),
        ensures
            final(r).wf(),
            old(r).same_ring(*final(r)),
            final(r).sq@ == old(r).sq@,
            final(r).state == old(r).state,
            old(self).state matches AsyncWriteState::Pending(id) ==> (is_armed(
                old(r).slots.slots@,
                id as int,
            ) ==> {
                &&& out is NotReady
                &&& final(self).state == old(self).state
                &&& final(r).unchanged_from(*old(r))
            }),
            old(self).state matches AsyncWriteState::Pending(id) ==> (is_completed(
                old(r).slots.slots@,
                id as int,
            ) ==> {
                &&& final(self).state is Closed
                &&& final(r).slots.slots@ =~= old(r).slots.slots@.update(id as int, None)
                &&& (old(r).slots.slots@[id as int].unwrap().payload matches Payload::Io {
                    buf: pb,
                    file: pf,
                } ==> {
                    let (res, fl) = old(r).slots.slots@[id as int].unwrap().outcome.unwrap();
                    &&& res < 0 ==> (out matches IoPoll::Failed(e2, b2, f2) && e2
                        == Error::OperationFailed(res) && b2 == pb && f2 == pf)
                    &&& res >= 0 ==> (out matches IoPoll::Ready(n, b2, f2) && n == res && b2 == pb
                        && f2 == pf)
                })
            }),
    {
        let mut st = AsyncWriteState::Closed;
        core::mem::swap(&mut self.state, &mut st);
        match st {
            AsyncWriteState::Pending(id) => {
                match r.slots.outcome_of(id) {
                    None => {
                        self.state = AsyncWriteState::Pending(id);
                        IoPoll::NotReady
                    },
                    Some(_) => {
                        let (res, _flags, payload) = r.slots.take_completed(id);
                        match payload {
                            Payload::Io { buf, file } => {
                                if res < 0 {
                                    IoPoll::Failed(Error::OperationFailed(res), buf, file)
                                } else {
                                    IoPoll::Ready(res as usize, buf, file)
                                }
                            },
                            Payload::Poll => {
                                proof {
                                    assert(false);
                                }
                                unreached()
                            },
                        }
                    },
                }
            },
            AsyncWriteState::Closed => {
                proof {
                    assert(false);
                }
                unreached()
            },
        }
    }
}

impl AsyncPoll {
    /// Poll the readiness stream against the reactor that owns its slot.
    ///
    /// Inactive: submit a fresh watch exactly once and report suspension
    /// (or fail retryably if the ring is full, leaving the stream
    /// inactive).  Active: report the delivered readiness bits, clear the
    /// outcome so the slot can be watched again, and go inactive — the
    /// next poll re-arms.  A negative kernel result terminates the stream:
    /// it never re-arms, and polling it after that is a caller error.
    pub fn poll(&mut self, r: &mut Reactor) -> (out: StreamPoll)
        requires
            !old(self).terminated,
            old(r).wf(),
            is_live(old(r).slots.slots@, old(self).id as int),
            old(r).state.active_wait < usize::MAX,
        ensures
            final(r).wf(),
            old(r).same_ring(*final(r)),
            final(self).id == old(self).id,
            final(self).fd == old(self).fd,
            final(self).flags == old(self).flags,
            final(self).terminated ==> !final(self).active,
            !old(self).active ==> {
                &&& old(r).sq@.len() >= old(r).sq_capacity ==> (out == StreamPoll::Failed(
                    Error::SubmissionFull,
                ) && !final(self).active && !final(self).terminated && final(r).unchanged_from(
                    *old(r),
                ))
                &&& old(r).sq@.len() < old(r).sq_capacity ==> {
                    &&& out == StreamPoll::NotReady
                    &&& final(self).active
                    &&& !final(self).terminated
                    &&& final(r).sq@ =~= old(r).sq@.push(
                        poll_entry(
                            old(self).fd,
                            old(self).flags,
                            (2 * (old(self).id + 1)) as u64,
                        ),
                    )
                    &&& final(r).slots.slots@ == old(r).slots.slots@
                    &&& final(r).state.active_wait == old(r).state.active_wait + 1
                    &&& final(r).state.requeue_timer == old(r).state.requeue_timer
                    &&& final(r).state.timer_pending == old(r).state.timer_pending
                    &&& final(r).state.requeue_park == old(r).state.requeue_park
                    &&& final(r).state.park == old(r).state.park
                }
            },
            (old(self).active && is_armed(old(r).slots.slots@, old(self).id as int)) ==> {
                &&& out == StreamPoll::NotReady
                &&& final(self).active
                &&& !final(self).terminated
                &&& final(r).unchanged_from(*old(r))
            },
            (old(self).active && is_completed(old(r).slots.slots@, old(self).id as int)) ==> {
                &&& !final(self).active
                &&& final(r).sq@ == old(r).sq@
                &&& final(r).state == old(r).state
                &&& final(r).slots.slots@ =~= old(r).slots.slots@.update(
                    old(self).id as int,
                    Some(
                        (Slot {
                            payload: old(r).slots.slots@[old(self).id as int].unwrap().payload,
                            outcome: None,
                            waiter: old(r).slots.slots@[old(self).id as int].unwrap().waiter,
                        }),
                    ),
                )
                &&& ({
                    let (res, fl) = old(r).slots.slots@[old(self).id as int].unwrap().outcome.unwrap();
                    &&& res < 0 ==> (out == StreamPoll::Failed(Error::OperationFailed(res))
                        && final(self).terminated)
                    &&& res >= 0 ==> (out == StreamPoll::Ready((res % 0x10000) as u16)
                        && !final(self).terminated)
                })
            },
    {
        if !self.active {
            match r.queue_async_poll(self.fd, self.flags, self.id) {
                Ok(_) => {
                    self.active = true;
                    StreamPoll::NotReady
                },
                Err(e) => StreamPoll::Failed(e),
            }
        } else {
            match r.slots.outcome_of(self.id) {
                None => StreamPoll::NotReady,
                Some(o) => {
                    let (res, _flags) = o;
                    r.slots.reset_outcome(self.id);
                    self.active = false;
                    if res < 0 {
                        self.terminated = true;
                        StreamPoll::Failed(Error::OperationFailed(res))
                    } else {
                        StreamPoll::Ready((res % 0x10000) as u16)
                    }
                },
            }
        }
    }
}

} // verus!
