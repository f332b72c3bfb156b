use vstd::prelude::*;

use crate::error::Error;
use crate::file::File;
use crate::slot::{
    deliver_spec, id_of_tag, is_armed, tag_of, Slot, SlotTable, NO_SLOT_TAG, PARK_TAG, TIMER_TAG,
};

verus! {

/// The wake primitive's protocol state: a latched signal that another part
/// of the program raises to force the park loop to return promptly.
///
/// The reactor only ever reads and clears the flag; raising it is the
/// embedding runtime's business (there through an atomic plus an eventfd
/// write, which this model leaves outside).
pub struct Unpark {
    pub signaled: bool,
}

impl Unpark {
    pub fn new() -> (u: Unpark)
        ensures
            !u.signaled,
    {
        Unpark { signaled: false }
    }

    /// Raise the signal: the next park decision must not block.
    pub fn unpark(&mut self)
        ensures
            final(self).signaled,
    {
        self.signaled = true;
    }

    /// Is a wake signal pending?
    pub fn pending(&self) -> (b: bool)
        ensures
            b == self.signaled,
    {
        self.signaled
    }

    /// Consume the signal after the wake watch completed.
    pub fn clear_event(&mut self)
        ensures
            !final(self).signaled,
    {
        self.signaled = false;
    }

    /// Final veto right before blocking: the wait is refused whenever a
    /// signal arrived after the earlier `pending` check.
    pub fn enter(&self) -> (allow_wait: bool)
        ensures
            allow_wait == !self.signaled,
    {
        !self.signaled
    }
}

/// Per-reactor bookkeeping mutated while completions are drained.
///
/// Invariant: `active_wait` counts every submission whose completion has not
/// arrived yet — user operations and the two auxiliary watches alike — and
/// is decremented exactly once per correlated completion.
pub struct CompletionState {
    /// The timer watch must be (re-)submitted before the loop may block.
    pub requeue_timer: bool,
    /// The timer fired and was not re-armed since; it must be disarmed
    /// before the next open-ended wait instead of being read.
    pub timer_pending: bool,
    /// The wake watch must be (re-)submitted before the loop may block.
    pub requeue_park: bool,
    /// Completions still owed by the kernel.
    pub active_wait: usize,
    /// The cross-thread wake signal.
    pub park: Unpark,
}

impl CompletionState {
    pub fn new() -> (s: CompletionState)
        ensures
            s.requeue_timer,
            !s.timer_pending,
            s.requeue_park,
            s.active_wait == 0,
            !s.park.signaled,
    {
        CompletionState {
            requeue_timer: true,
            timer_pending: false,
            requeue_park: true,
            active_wait: 0,
            park: Unpark::new(),
        }
    }
}

/// What a drained completion turned out to be.
#[derive(Clone, Copy, Debug)]
pub enum Dispatch {
    /// Tag zero: fire-and-forget housekeeping, discarded.
    Ignored,
    /// An even tag: the outcome was delivered to this slot, and this waiter
    /// (if any) must be resumed.
    Delivered { id: usize, waiter: Option<u64> },
    /// The timer watch fired.
    TimerFired,
    /// The wake watch fired; its signal was consumed.
    ParkWake,
}

/// What the embedding loop must do to the timer primitive this turn.
#[derive(Clone, Copy, Debug, PartialEq, Eq, Structural)]
pub enum TimerCmd {
    /// Leave the timer as it is.
    Keep,
    /// Arm it one-shot for this many nanoseconds.
    Oneshot(u64),
    /// Disarm it (consume an old fire without reading it).
    Disarm,
}

/// Kinds of requests the reactor places in the submission ring.
#[derive(Clone, Copy, Debug, PartialEq, Eq, Structural)]
pub enum OpKind {
    /// Vectored read into the slot's buffer.
    ReadVec,
    /// Vectored write from the slot's buffer.
    WriteVec,
    /// One-shot readiness watch.
    PollAdd,
    /// Best-effort removal of an earlier readiness watch.
    PollRemove,
}

/// One request for the kernel ring, in plain values.  The embedding runtime
/// translates it into the ring's native entry, echoing `user_data` verbatim.
#[derive(Clone, Copy, Debug, PartialEq, Eq, Structural)]
pub struct SubmissionEntry {
    pub op: OpKind,
    pub fd: i32,
    pub offset: u64,
    /// Readiness interest bits for `PollAdd`.
    pub poll_flags: u16,
    /// For `PollRemove`: the tag of the watch to cancel.
    pub target: u64,
    /// The correlation tag echoed back in the completion.
    pub user_data: u64,
}

/// The readiness bit the auxiliary watches are interested in (data to read).
pub const POLL_IN: u16 = 0x1;

/// The submission entry of a vectored read at `offset` into the buffer of
/// the slot behind `tag`.
pub open spec fn read_entry(fd: i32, offset: u64, tag: u64) -> SubmissionEntry {
    SubmissionEntry {
        op: OpKind::ReadVec,
        fd,
        offset,
        poll_flags: 0,
        target: 0,
        user_data: tag,
    }
}

/// The submission entry of a vectored write at `offset` from the buffer of
/// the slot behind `tag`.
pub open spec fn write_entry(fd: i32, offset: u64, tag: u64) -> SubmissionEntry {
    SubmissionEntry {
        op: OpKind::WriteVec,
        fd,
        offset,
        poll_flags: 0,
        target: 0,
        user_data: tag,
    }
}

/// The submission entry of a one-shot readiness watch.
pub open spec fn poll_entry(fd: i32, poll_flags: u16, tag: u64) -> SubmissionEntry {
    SubmissionEntry {
        op: OpKind::PollAdd,
        fd,
        offset: 0,
        poll_flags,
        target: 0,
        user_data: tag,
    }
}

/// The fire-and-forget entry that asks the kernel to drop the readiness
/// watch submitted under `target`.
pub open spec fn poll_remove_entry(target: u64) -> SubmissionEntry {
    SubmissionEntry {
        op: OpKind::PollRemove,
        fd: -1i32,
        offset: 0,
        poll_flags: 0,
        target,
        user_data: NO_SLOT_TAG,
    }
}

/// Payload of one in-flight operation.
#[derive(Debug)]
pub enum Payload {
    /// A read or write: the buffer and the file travel with the slot and
    /// come back to the caller when the operation resolves.
    Io { buf: Vec<u8>, file: File },
    /// A readiness watch carries no state of its own.
    Poll,
}

/// Arguments of the combined submit-and-wait call the loop must make.
#[derive(Clone, Copy, Debug, PartialEq, Eq, Structural)]
pub struct EnterCall {
    /// How many queued entries to submit.
    pub to_submit: usize,
    /// Least number of completions to wait for before returning.
    pub min_complete: usize,
    /// Whether the call waits for events at all.
    pub getevents: bool,
}

/// The plan one park turn hands back to the embedding loop.
#[derive(Debug)]
pub struct TurnPlan {
    /// What to do to the timer primitive before entering the kernel.
    pub timer_cmd: TimerCmd,
    /// The kernel call to make, or nothing when there is nothing to submit
    /// and no reason to wait.
    pub enter: Option<EnterCall>,
    /// Waiters resumed by the completions drained at the head of the turn.
    pub woken: Vec<u64>,
}

impl TurnPlan {
    /// Does this plan block the loop in the kernel?
    pub open spec fn blocks(self) -> bool {
        match self.enter {
            Some(e) => e.getevents,
            None => false,
        }
    }
}

/// Abstract state of the reactor as completion dispatch sees it: the slot
/// arena and the completion bookkeeping, with the exec containers replaced
/// by their mathematical views.
pub ghost struct ReactorModel {
    pub slots: Seq<Option<Slot<Payload>>>,
    pub requeue_timer: bool,
    pub timer_pending: bool,
    pub requeue_park: bool,
    pub active_wait: nat,
    pub signaled: bool,
}

/// The abstract state after one completion `(user_data, result, flags)` is
/// applied, or the violation it raises.  This is the functional meaning of
/// `Reactor::dispatch_completion`.
pub open spec fn dispatch_model(
    m: ReactorModel,
    user_data: u64,
    result: i32,
    flags: u32,
) -> Result<ReactorModel, Error> {
    if user_data == NO_SLOT_TAG {
        Ok(m)
    } else if m.active_wait == 0 {
        Err(Error::ProtocolViolation)
    } else if user_data % 2 == 0 {
        if is_armed(m.slots, id_of_tag(user_data as nat) as int) {
            Ok(
                (ReactorModel {
                    slots: deliver_spec(
                        m.slots,
                        id_of_tag(user_data as nat) as int,
                        result,
                        flags,
                    ),
                    active_wait: (m.active_wait - 1) as nat,
                    ..m
                }),
            )
        } else {
            Err(Error::ProtocolViolation)
        }
    } else if user_data == TIMER_TAG {
        Ok(
            (ReactorModel {
                active_wait: (m.active_wait - 1) as nat,
                requeue_timer: true,
                timer_pending: true,
                ..m
            }),
        )
    } else if user_data == PARK_TAG {
        Ok(
            (ReactorModel {
                active_wait: (m.active_wait - 1) as nat,
                requeue_park: true,
                signaled: false,
                ..m
            }),
        )
    } else {
        Err(Error::ProtocolViolation)
    }
}

/// Does this completion deliver an outcome to an armed slot that has a
/// waiter registered?
pub open spec fn wakes_waiter(m: ReactorModel, c: (u64, i32, u32)) -> bool {
    &&& c.0 != NO_SLOT_TAG
    &&& m.active_wait > 0
    &&& c.0 % 2 == 0
    &&& is_armed(m.slots, id_of_tag(c.0 as nat) as int)
    &&& m.slots[id_of_tag(c.0 as nat) as int].unwrap().waiter is Some
}

/// The waiters a batch of completions resumes, in delivery order.
pub open spec fn woken_model(m: ReactorModel, cs: Seq<(u64, i32, u32)>) -> Seq<u64>
    decreases cs.len(),
{
    if cs.len() == 0 {
        Seq::empty()
    } else {
        match dispatch_model(m, cs[0].0, cs[0].1, cs[0].2) {
            Ok(m2) => {
                if wakes_waiter(m, cs[0]) {
                    seq![m.slots[id_of_tag(cs[0].0 as nat) as int].unwrap().waiter.unwrap()]
                        + woken_model(m2, cs.skip(1))
                } else {
                    woken_model(m2, cs.skip(1))
                }
            },
            Err(_) => Seq::empty(),
        }
    }
}

/// The abstract state after a whole batch of completions, applied in
/// order, or the violation raised by the first bad one.
pub open spec fn batch_model(m: ReactorModel, cs: Seq<(u64, i32, u32)>) -> Result<
    ReactorModel,
    Error,
>
    decreases cs.len(),
{
    if cs.len() == 0 {
        Ok(m)
    } else {
        match dispatch_model(m, cs[0].0, cs[0].1, cs[0].2) {
            Ok(m2) => batch_model(m2, cs.skip(1)),
            Err(e) => Err(e),
        }
    }
}

/// The reactor core: the slot arena, the completion bookkeeping, and the
/// model of the ring's submission side.  Draining the completion ring,
/// arming the timer and performing the enter call are the embedding loop's
/// part; every decision about them is made — and specified — here.
pub struct Reactor {
    pub slots: SlotTable<Payload>,
    pub state: CompletionState,
    /// Entries queued but not yet passed to the kernel.
    pub sq: Vec<SubmissionEntry>,
    /// Capacity of the submission ring; queueing beyond it reports
    /// `SubmissionFull`.
    pub sq_capacity: usize,
    /// Descriptor of the timer primitive, watched via `TIMER_TAG`.
    pub timer_fd: i32,
    /// Descriptor of the wake primitive, watched via `PARK_TAG`.
    pub park_fd: i32,
}

impl Reactor {
    /// The slot arena never outgrows the range its tags encode.
    pub open spec fn wf(self) -> bool {
        self.slots.wf()
    }

    /// The abstract state completion dispatch works on.
    pub open spec fn model(self) -> ReactorModel {
        ReactorModel {
            slots: self.slots.slots@,
            requeue_timer: self.state.requeue_timer,
            timer_pending: self.state.timer_pending,
            requeue_park: self.state.requeue_park,
            active_wait: self.state.active_wait as nat,
            signaled: self.state.park.signaled,
        }
    }

    /// A fresh reactor over a ring of the given capacity and the two
    /// auxiliary descriptors: nothing outstanding, nothing queued, both
    /// auxiliary watches waiting to be armed.
    pub fn new(sq_capacity: usize, timer_fd: i32, park_fd: i32) -> (r: Reactor)
        ensures
            r.wf(),
            r.slots.spec_len() == 0,
            r.sq@.len() == 0,
            r.sq_capacity == sq_capacity,
            r.timer_fd == timer_fd,
            r.park_fd == park_fd,
            r.state.requeue_timer,
            r.state.requeue_park,
            !r.state.timer_pending,
            r.state.active_wait == 0,
            !r.state.park.signaled,
    {
        Reactor {
            slots: SlotTable::new(),
            state: CompletionState::new(),
            sq: Vec::new(),
            sq_capacity,
            timer_fd,
            park_fd,
        }
    }

    /// Raise the cross-thread wake signal.
    pub fn unpark(&mut self)
        ensures
            final(self).state.park.signaled,
            final(self).slots == old(self).slots,
            final(self).sq == old(self).sq,
            final(self).sq_capacity == old(self).sq_capacity,
            final(self).timer_fd == old(self).timer_fd,
            final(self).park_fd == old(self).park_fd,
            final(self).state.requeue_timer == old(self).state.requeue_timer,
            final(self).state.timer_pending == old(self).state.timer_pending,
            final(self).state.requeue_park == old(self).state.requeue_park,
            final(self).state.active_wait == old(self).state.active_wait,
            old(self).wf() ==> final(self).wf(),
    {
        self.state.park.unpark();
    }

    /// Hand the queued entries to the embedding loop for submission; the
    /// queue is empty afterwards.  The entries count as in flight already
    /// (`active_wait` covered them when they were queued).
    pub fn take_pending(&mut self) -> (entries: Vec<SubmissionEntry>)
        ensures
            entries@ =~= old(self).sq@,
            final(self).sq@.len() == 0,
            final(self).slots == old(self).slots,
            final(self).state == old(self).state,
            final(self).sq_capacity == old(self).sq_capacity,
            final(self).timer_fd == old(self).timer_fd,
            final(self).park_fd == old(self).park_fd,
            old(self).wf() ==> final(self).wf(),
    {
        let mut entries: Vec<SubmissionEntry> = Vec::new();
        core::mem::swap(&mut self.sq, &mut entries);
        entries
    }

    /// Number of queued entries not yet submitted.
    pub fn pending_count(&self) -> (n: usize)
        ensures
            n == self.sq@.len(),
    {
        self.sq.len()
    }

    /// The ring side of the reactor is unchanged: capacity and the two
    /// auxiliary descriptors.
    pub open spec fn same_ring(self, other: Reactor) -> bool {
        &&& self.sq_capacity == other.sq_capacity
        &&& self.timer_fd == other.timer_fd
        &&& self.park_fd == other.park_fd
    }

    /// Every observable part of the reactor equals that of `o`.
    pub open spec fn unchanged_from(self, o: Reactor) -> bool {
        &&& self.slots.slots@ == o.slots.slots@
        &&& self.state == o.state
        &&& self.sq@ == o.sq@
        &&& self.same_ring(o)
    }

    /// Arm the timer watch: queue a readiness request on the timer
    /// descriptor under the timer sentinel tag and mark the watch armed.
    /// Fails, changing nothing, exactly when the ring is full.
    pub fn queue_timer_poll(&mut self) -> (r: Result<(), Error>)
        requires
            old(self).state.active_wait < usize::MAX,
        ensures
            final(self).slots == old(self).slots,
            old(self).same_ring(*final(self)),
            final(self).state.timer_pending == old(self).state.timer_pending,
            final(self).state.requeue_park == old(self).state.requeue_park,
            final(self).state.park == old(self).state.park,
            r is Ok <==> old(self).sq@.len() < old(self).sq_capacity,
            r is Ok ==> {
                &&& final(self).sq@ =~= old(self).sq@.push(
                    poll_entry(old(self).timer_fd, POLL_IN, TIMER_TAG),
                )
                &&& final(self).state.active_wait == old(self).state.active_wait + 1
                &&& !final(self).state.requeue_timer
            },
            r matches Err(e) ==> e == Error::SubmissionFull && *final(self) == *old(self),
    {
        if self.sq.len() >= self.sq_capacity {
            return Err(Error::SubmissionFull);
        }
        self.sq.push(
            SubmissionEntry {
                op: OpKind::PollAdd,
                fd: self.timer_fd,
                offset: 0,
                poll_flags: POLL_IN,
                target: 0,
                user_data: TIMER_TAG,
            },
        );
        self.state.active_wait = self.state.active_wait + 1;
        self.state.requeue_timer = false;
        Ok(())
    }

    /// Arm the wake watch: queue a readiness request on the wake descriptor
    /// under the wake sentinel tag and mark the watch armed.  Fails,
    /// changing nothing, exactly when the ring is full.
    pub fn queue_park_read(&mut self) -> (r: Result<(), Error>)
        requires
            old(self).state.active_wait < usize::MAX,
        ensures
            final(self).slots == old(self).slots,
            old(self).same_ring(*final(self)),
            final(self).state.timer_pending == old(self).state.timer_pending,
            final(self).state.requeue_timer == old(self).state.requeue_timer,
            final(self).state.park == old(self).state.park,
            r is Ok <==> old(self).sq@.len() < old(self).sq_capacity,
            r is Ok ==> {
                &&& final(self).sq@ =~= old(self).sq@.push(
                    poll_entry(old(self).park_fd, POLL_IN, PARK_TAG),
                )
                &&& final(self).state.active_wait == old(self).state.active_wait + 1
                &&& !final(self).state.requeue_park
            },
            r matches Err(e) ==> e == Error::SubmissionFull && *final(self) == *old(self),
    {
        if self.sq.len() >= self.sq_capacity {
            return Err(Error::SubmissionFull);
        }
        self.sq.push(
            SubmissionEntry {
                op: OpKind::PollAdd,
                fd: self.park_fd,
                offset: 0,
                poll_flags: POLL_IN,
                target: 0,
                user_data: PARK_TAG,
            },
        );
        self.state.active_wait = self.state.active_wait + 1;
        self.state.requeue_park = false;
        Ok(())
    }

    /// Queue a vectored read for slot `id`.  Fails, changing nothing,
    /// exactly when the ring is full.
    pub fn queue_async_read(&mut self, fd: i32, offset: u64, id: usize) -> (r: Result<(), Error>)
        requires
            old(self).wf(),
            id < old(self).slots.spec_len(),
            old(self).state.active_wait < usize::MAX,
        ensures
            final(self).slots == old(self).slots,
            old(self).same_ring(*final(self)),
            final(self).state.timer_pending == old(self).state.timer_pending,
            final(self).state.requeue_timer == old(self).state.requeue_timer,
            final(self).state.requeue_park == old(self).state.requeue_park,
            final(self).state.park == old(self).state.park,
            r is Ok <==> old(self).sq@.len() < old(self).sq_capacity,
            r is Ok ==> {
                &&& final(self).sq@ =~= old(self).sq@.push(
                    read_entry(fd, offset, (2 * (id + 1)) as u64),
                )
                &&& final(self).sq@.last().user_data == tag_of(id as nat)
                &&& final(self).state.active_wait == old(self).state.active_wait + 1
            },
            r matches Err(e) ==> e == Error::SubmissionFull && *final(self) == *old(self),
    {
        if self.sq.len() >= self.sq_capacity {
            return Err(Error::SubmissionFull);
        }
        let tag = self.slots.encode_tag(id);
        self.sq.push(
            SubmissionEntry {
                op: OpKind::ReadVec,
                fd,
                offset,
                poll_flags: 0,
                target: 0,
                user_data: tag,
            },
        );
        self.state.active_wait = self.state.active_wait + 1;
        Ok(())
    }

    /// Queue a vectored write for slot `id`.  Fails, changing nothing,
    /// exactly when the ring is full.
    pub fn queue_async_write(&mut self, fd: i32, offset: u64, id: usize) -> (r: Result<(), Error>)
        requires
            old(self).wf(),
            id < old(self).slots.spec_len(),
            old(self).state.active_wait < usize::MAX,
        ensures
            final(self).slots == old(self).slots,
            old(self).same_ring(*final(self)),
            final(self).state.timer_pending == old(self).state.timer_pending,
            final(self).state.requeue_timer == old(self).state.requeue_timer,
            final(self).state.requeue_park == old(self).state.requeue_park,
            final(self).state.park == old(self).state.park,
            r is Ok <==> old(self).sq@.len() < old(self).sq_capacity,
            r is Ok ==> {
                &&& final(self).sq@ =~= old(self).sq@.push(
                    write_entry(fd, offset, (2 * (id + 1)) as u64),
                )
                &&& final(self).sq@.last().user_data == tag_of(id as nat)
                &&& final(self).state.active_wait == old(self).state.active_wait + 1
            },
            r matches Err(e) ==> e == Error::SubmissionFull && *final(self) == *old(self),
    {
        if self.sq.len() >= self.sq_capacity {
            return Err(Error::SubmissionFull);
        }
        let tag = self.slots.encode_tag(id);
        self.sq.push(
            SubmissionEntry {
                op: OpKind::WriteVec,
                fd,
                offset,
                poll_flags: 0,
                target: 0,
                user_data: tag,
            },
        );
        self.state.active_wait = self.state.active_wait + 1;
        Ok(())
    }

    /// Queue a one-shot readiness watch for slot `id`.  Fails, changing
    /// nothing, exactly when the ring is full.
    pub fn queue_async_poll(&mut self, fd: i32, poll_flags: u16, id: usize) -> (r: Result<
        (),
        Error,
    >)
        requires
            old(self).wf(),
            id < old(self).slots.spec_len(),
            old(self).state.active_wait < usize::MAX,
        ensures
            final(self).slots == old(self).slots,
            old(self).same_ring(*final(self)),
            final(self).state.timer_pending == old(self).state.timer_pending,
            final(self).state.requeue_timer == old(self).state.requeue_timer,
            final(self).state.requeue_park == old(self).state.requeue_park,
            final(self).state.park == old(self).state.park,
            r is Ok <==> old(self).sq@.len() < old(self).sq_capacity,
            r is Ok ==> {
                &&& final(self).sq@ =~= old(self).sq@.push(
                    poll_entry(fd, poll_flags, (2 * (id + 1)) as u64),
                )
                &&& final(self).sq@.last().user_data == tag_of(id as nat)
                &&& final(self).state.active_wait == old(self).state.active_wait + 1
            },
            r matches Err(e) ==> e == Error::SubmissionFull && *final(self) == *old(self),
    {
        if self.sq.len() >= self.sq_capacity {
            return Err(Error::SubmissionFull);
        }
        let tag = self.slots.encode_tag(id);
        self.sq.push(
            SubmissionEntry {
                op: OpKind::PollAdd,
                fd,
                offset: 0,
                poll_flags,
                target: 0,
                user_data: tag,
            },
        );
        self.state.active_wait = self.state.active_wait + 1;
        Ok(())
    }

    /// Translate one completion `(user_data, result, flags)` drained from
    /// the ring and apply its effect.
    ///
    /// Tag zero is discarded.  An even tag is decoded back to its slot and
    /// the outcome delivered there; a tag that names no armed slot, a
    /// sentinel that was not outstanding, and every unknown odd value are
    /// correlation violations that change nothing.
    pub fn dispatch_completion(&mut self, user_data: u64, result: i32, flags: u32) -> (r: Result<
        Dispatch,
        Error,
    >)
        ensures
            old(self).same_ring(*final(self)),
            final(self).sq == old(self).sq,
            final(self).slots.spec_len() == old(self).slots.spec_len(),
            old(self).wf() ==> final(self).wf(),
            final(self).state.park.signaled ==> old(self).state.park.signaled,
            r is Err ==> (r == Err::<Dispatch, Error>(Error::ProtocolViolation)
                && final(self).unchanged_from(*old(self))),
            user_data == NO_SLOT_TAG ==> (r matches Ok(d) && d is Ignored && *final(self) == *old(
                self,
            )),
            user_data != NO_SLOT_TAG && old(self).state.active_wait == 0 ==> r is Err,
            user_data != NO_SLOT_TAG && old(self).state.active_wait > 0 && user_data % 2 == 0 ==> {
                if is_armed(old(self).slots.slots@, id_of_tag(user_data as nat) as int) {
                    &&& r matches Ok(d)
                    &&& (d matches Dispatch::Delivered { id, waiter } && id == id_of_tag(
                        user_data as nat,
                    ) && waiter == old(self).slots.slots@[id as int].unwrap().waiter)
                    &&& final(self).slots.slots@ =~= deliver_spec(
                        old(self).slots.slots@,
                        id_of_tag(user_data as nat) as int,
                        result,
                        flags,
                    )
                    &&& final(self).state.active_wait == old(self).state.active_wait - 1
                    &&& final(self).state.requeue_timer == old(self).state.requeue_timer
                    &&& final(self).state.timer_pending == old(self).state.timer_pending
                    &&& final(self).state.requeue_park == old(self).state.requeue_park
                    &&& final(self).state.park == old(self).state.park
                } else {
                    r is Err
                }
            },
            user_data == TIMER_TAG && old(self).state.active_wait > 0 ==> {
                &&& r matches Ok(d) && d is TimerFired
                &&& final(self).slots == old(self).slots
                &&& final(self).state.active_wait == old(self).state.active_wait - 1
                &&& final(self).state.requeue_timer
                &&& final(self).state.timer_pending
                &&& final(self).state.requeue_park == old(self).state.requeue_park
                &&& final(self).state.park == old(self).state.park
            },
            user_data == PARK_TAG && old(self).state.active_wait > 0 ==> {
                &&& r matches Ok(d) && d is ParkWake
                &&& final(self).slots == old(self).slots
                &&& final(self).state.active_wait == old(self).state.active_wait - 1
                &&& final(self).state.requeue_park
                &&& !final(self).state.park.signaled
                &&& final(self).state.requeue_timer == old(self).state.requeue_timer
                &&& final(self).state.timer_pending == old(self).state.timer_pending
            },
            user_data % 2 == 1 && user_data != TIMER_TAG && user_data != PARK_TAG ==> r is Err,
            r matches Ok(d) ==> dispatch_model(old(self).model(), user_data, result, flags)
                == Ok::<ReactorModel, Error>(final(self).model()),
            r matches Err(e) ==> dispatch_model(old(self).model(), user_data, result, flags)
                == Err::<ReactorModel, Error>(e),
    {
        if user_data == NO_SLOT_TAG {
            // fire-and-forget housekeeping, e.g. a poll-removal acknowledgment
            return Ok(Dispatch::Ignored);
        }
        if self.state.active_wait == 0 {
            // more correlated completions than submissions
            return Err(Error::ProtocolViolation);
        }
        if user_data % 2 == 0 {
            let idx = user_data / 2 - 1;
            if idx >= self.slots.len() as u64 {
                return Err(Error::ProtocolViolation);
            }
            let id = idx as usize;
            match self.slots.deliver(id, result, flags) {
                Ok(waiter) => {
                    self.state.active_wait = self.state.active_wait - 1;
                    Ok(Dispatch::Delivered { id, waiter })
                },
                Err(e) => Err(e),
            }
        } else if user_data == TIMER_TAG {
            self.state.active_wait = self.state.active_wait - 1;
            self.state.requeue_timer = true;
            self.state.timer_pending = true;
            Ok(Dispatch::TimerFired)
        } else if user_data == PARK_TAG {
            self.state.active_wait = self.state.active_wait - 1;
            self.state.park.clear_event();
            self.state.requeue_park = true;
            Ok(Dispatch::ParkWake)
        } else {
            Err(Error::ProtocolViolation)
        }
    }

    /// Dispatch a batch of completions drained from the ring.
    ///
    /// Returns whether anything at all was drained (tag-zero entries
    /// included) and the waiters resumed by the delivered outcomes, or the
    /// violation that stopped the batch.
    pub fn check_completions(&mut self, completions: &Vec<(u64, i32, u32)>) -> (r: Result<
        (bool, Vec<u64>),
        Error,
    >)
        ensures
            old(self).same_ring(*final(self)),
            final(self).sq@ == old(self).sq@,
            final(self).slots.spec_len() == old(self).slots.spec_len(),
            old(self).wf() ==> final(self).wf(),
            final(self).state.park.signaled ==> old(self).state.park.signaled,
            final(self).state.active_wait <= old(self).state.active_wait,
            r matches Ok(rw) ==> rw.0 == (completions@.len() > 0),
            completions@.len() == 0 ==> (r is Ok && final(self).unchanged_from(*old(self))),
            r is Err ==> r == Err::<(bool, Vec<u64>), Error>(Error::ProtocolViolation),
            forall|i: int|
                is_armed(final(self).slots.slots@, i) ==> is_armed(old(self).slots.slots@, i),
            r is Ok ==> batch_model(old(self).model(), completions@) == Ok::<
                ReactorModel,
                Error,
            >(final(self).model()),
            r matches Err(e) ==> batch_model(old(self).model(), completions@) == Err::<
                ReactorModel,
                Error,
            >(e),
            r matches Ok(rw) ==> rw.1@ == woken_model(old(self).model(), completions@),
    {
        let mut received = false;
        let mut woken: Vec<u64> = Vec::new();
        let n = completions.len();
        let mut k: usize = 0;
        proof {
            assert(completions@.skip(0) =~= completions@);
            assert(Seq::<u64>::empty() + woken_model(self.model(), completions@) =~= woken_model(
                self.model(),
                completions@,
            ));
        }
        while k < n
            invariant
                n == completions@.len(),
                k <= n,
                received == (k > 0),
                old(self).same_ring(*self),
                self.sq@ == old(self).sq@,
                self.slots.spec_len() == old(self).slots.spec_len(),
                old(self).wf() ==> self.wf(),
                self.state.park.signaled ==> old(self).state.park.signaled,
                self.state.active_wait <= old(self).state.active_wait,
                k == 0 ==> self.unchanged_from(*old(self)),
                forall|i: int| is_armed(self.slots.slots@, i) ==> is_armed(old(self).slots.slots@, i),
                batch_model(old(self).model(), completions@) == batch_model(
                    self.model(),
                    completions@.skip(k as int),
                ),
                woken_model(old(self).model(), completions@) == woken@ + woken_model(
                    self.model(),
                    completions@.skip(k as int),
                ),
            decreases n - k,
        {
            let (user_data, result, flags) = completions[k];
            received = true;
            let ghost pre = self.model();
            let ghost pre_woken = woken@;
            match self.dispatch_completion(user_data, result, flags) {
                Ok(d) => {
                    proof {
                        assert(completions@.skip(k as int)[0] == completions@[k as int]);
                        assert(completions@.skip(k as int).skip(1) =~= completions@.skip(
                            k as int + 1,
                        ));
                        assert(batch_model(pre, completions@.skip(k as int)) == batch_model(
                            self.model(),
                            completions@.skip(k as int + 1),
                        ));
                    }
                    match d {
                        Dispatch::Delivered { id: _, waiter } => {
                            match waiter {
                                Some(w) => {
                                    woken.push(w);
                                    proof {
                                        assert(wakes_waiter(pre, completions@[k as int]));
                                        assert(woken@ =~= pre_woken + seq![w]);
                                        assert(woken_model(pre, completions@.skip(k as int))
                                            == seq![w] + woken_model(
                                            self.model(),
                                            completions@.skip(k as int + 1),
                                        ));
                                        assert((pre_woken + seq![w]) + woken_model(
                                            self.model(),
                                            completions@.skip(k as int + 1),
                                        ) =~= pre_woken + (seq![w] + woken_model(
                                            self.model(),
                                            completions@.skip(k as int + 1),
                                        )));
                                    }
                                },
                                None => {
                                    proof {
                                        assert(!wakes_waiter(pre, completions@[k as int]));
                                    }
                                },
                            }
                        },
                        _ => {
                            proof {
                                assert(!wakes_waiter(pre, completions@[k as int]));
                            }
                        },
                    }
                },
                Err(e) => {
                    proof {
                        assert(completions@.skip(k as int)[0] == completions@[k as int]);
                    }
                    return Err(e);
                },
            }
            k = k + 1;
        }
        proof {
            assert(woken@ + woken_model(self.model(), completions@.skip(n as int)) =~= woken@);
        }
        Ok((received, woken))
    }

    /// One turn of the park loop.
    ///
    /// `completions` is what the loop drained from the ring before parking;
    /// `wait` asks to block, `timeout_ns` bounds the block.  The returned
    /// plan tells the loop what to do to the timer, and whether — and how —
    /// to make the combined submit-and-wait call.  The plan never blocks
    /// when fresh completions were just drained, when the wake signal is
    /// up, or when an auxiliary watch could not be armed.
    pub fn park_inner(&mut self, wait: bool, timeout_ns: Option<u64>, completions: &Vec<
        (u64, i32, u32),
    >) -> (r: Result<TurnPlan, Error>)
        requires
            old(self).wf(),
            old(self).state.active_wait <= usize::MAX - 2,
            timeout_ns matches Some(ns) ==> ns > 0,
        ensures
            old(self).same_ring(*final(self)),
            final(self).slots.spec_len() == old(self).slots.spec_len(),
            final(self).wf(),
            r is Err ==> r == Err::<TurnPlan, Error>(Error::ProtocolViolation),
            completions@.len() == 0 ==> r is Ok,
            r is Ok <==> batch_model(old(self).model(), completions@) is Ok,
            r matches Ok(plan) ==> {
                &&& plan.woken@ == woken_model(old(self).model(), completions@)
                &&& (final(self).sq@ =~= old(self).sq@ || final(self).sq@ =~= old(self).sq@.push(
                    poll_entry(old(self).timer_fd, POLL_IN, TIMER_TAG),
                ) || final(self).sq@ =~= old(self).sq@.push(
                    poll_entry(old(self).park_fd, POLL_IN, PARK_TAG),
                ) || final(self).sq@ =~= old(self).sq@.push(
                    poll_entry(old(self).timer_fd, POLL_IN, TIMER_TAG),
                ).push(poll_entry(old(self).park_fd, POLL_IN, PARK_TAG)))
                &&& !wait ==> (!plan.blocks() && plan.timer_cmd is Keep)
                &&& completions@.len() > 0 ==> !plan.blocks()
                &&& old(self).state.park.signaled ==> !plan.blocks()
                &&& plan.blocks() ==> wait
                &&& plan.blocks() ==> (!final(self).state.requeue_timer && !final(self).state.requeue_park && !final(self).state.park.signaled)
                &&& plan.enter matches Some(e) ==> (e.to_submit == final(self).sq@.len() && (
                e.min_complete == if e.getevents {
                    1usize
                } else {
                    0usize
                }) && e.getevents == plan.blocks())
                &&& plan.enter is None ==> final(self).sq@.len() == 0
                &&& plan.timer_cmd matches TimerCmd::Oneshot(ns) ==> (timeout_ns == Some(ns)
                    && !final(self).state.timer_pending && wait)
                &&& plan.timer_cmd is Disarm ==> (timeout_ns is None && !final(self).state.timer_pending)
                &&& timeout_ns is None ==> !(plan.timer_cmd is Oneshot)
                &&& (wait && completions@.len() == 0 && !old(self).state.park.signaled) ==> (match timeout_ns {
                    Some(ns) => plan.timer_cmd == TimerCmd::Oneshot(ns),
                    None => (old(self).state.timer_pending ==> plan.timer_cmd is Disarm),
                })
                &&& timeout_ns matches Some(ns) ==> (plan.blocks() ==> plan.timer_cmd
                    == TimerCmd::Oneshot(ns))
                &&& (wait && old(self).state.requeue_timer && old(self).sq@.len() >= old(self).sq_capacity) ==> !plan.blocks()
                &&& (wait && old(self).state.requeue_park && old(self).sq@.len() >= old(self).sq_capacity) ==> !plan.blocks()
                &&& (completions@.len() == 0 && !final(self).state.requeue_timer && old(self).state.requeue_timer) ==> (final(self).sq@.len() > old(self).sq@.len() && final(self).sq@[old(self).sq@.len() as int] == poll_entry(old(self).timer_fd, POLL_IN, TIMER_TAG))
                &&& (completions@.len() == 0 && !final(self).state.requeue_park && old(self).state.requeue_park) ==> (final(self).sq@.len() > old(self).sq@.len() && final(self).sq@.last() == poll_entry(old(self).park_fd, POLL_IN, PARK_TAG))
                &&& (completions@.len() == 0 && final(self).sq@.len() == old(self).sq@.len()) ==> (final(self).state.requeue_timer == old(self).state.requeue_timer && final(self).state.requeue_park == old(self).state.requeue_park)
                &&& (final(self).sq@.len() == 0 && !plan.blocks()) ==> plan.enter is None
                &&& (wait && completions@.len() == 0 && !old(self).state.park.signaled && old(self).sq@.len() + 2 <= old(self).sq_capacity) ==> plan.blocks()
                &&& batch_model(old(self).model(), completions@) matches Ok(m) ==> final(self).slots.slots@ == m.slots
            },
    {
        let mut wait = wait;
        let (received, woken) = match self.check_completions(completions) {
            Ok(rw) => rw,
            Err(e) => {
                return Err(e);
            },
        };
        if received {
            // freshly drained work must be handled before any sleep
            wait = false;
        }
        if self.state.park.pending() {
            wait = false;
        }
        let mut timer_cmd = TimerCmd::Keep;
        if wait {
            match timeout_ns {
                Some(ns) => {
                    // arm the deadline before its watch is re-queued
                    timer_cmd = TimerCmd::Oneshot(ns);
                    self.state.timer_pending = false;
                },
                None => {
                    if self.state.timer_pending {
                        // disarm a fired timer instead of reading it
                        timer_cmd = TimerCmd::Disarm;
                        self.state.timer_pending = false;
                    }
                },
            }
            if self.state.requeue_timer {
                match self.queue_timer_poll() {
                    Ok(_) => {},
                    Err(_) => {
                        // never block without a live timer watch
                        wait = false;
                    },
                }
            }
        }
        if wait && self.state.requeue_park {
            match self.queue_park_read() {
                Ok(_) => {},
                Err(_) => {
                    // never block without a live wake watch
                    wait = false;
                },
            }
        }
        let pending = self.sq.len();
        let allow_wait = self.state.park.enter();
        if !allow_wait {
            wait = false;
        }
        let enter = if pending == 0 && !wait {
            // nothing to submit and no reason to wait: skip the kernel call
            None
        } else {
            Some(
                EnterCall {
                    to_submit: pending,
                    min_complete: if wait {
                        1
                    } else {
                        0
                    },
                    getevents: wait,
                },
            )
        };
        Ok(TurnPlan { timer_cmd, enter, woken })
    }

    /// Park without a deadline: drain, then plan a block until the next
    /// completion.
    pub fn park(&mut self, completions: &Vec<(u64, i32, u32)>) -> (r: Result<TurnPlan, Error>)
        requires
            old(self).wf(),
            old(self).state.active_wait <= usize::MAX - 2,
        ensures
            old(self).same_ring(*final(self)),
            final(self).wf(),
            r is Err ==> r == Err::<TurnPlan, Error>(Error::ProtocolViolation),
            completions@.len() == 0 ==> r is Ok,
            r is Ok <==> batch_model(old(self).model(), completions@) is Ok,
            r matches Ok(plan) ==> {
                &&& plan.woken@ == woken_model(old(self).model(), completions@)
                &&& batch_model(old(self).model(), completions@) matches Ok(m) ==> final(self).slots.slots@ == m.slots
                &&& completions@.len() > 0 ==> !plan.blocks()
                &&& old(self).state.park.signaled ==> !plan.blocks()
                &&& plan.blocks() ==> (!final(self).state.requeue_timer && !final(self).state.requeue_park && !final(self).state.park.signaled)
                &&& (completions@.len() == 0 && !old(self).state.park.signaled && old(self).sq@.len() + 2 <= old(self).sq_capacity) ==> plan.blocks()
                &&& !(plan.timer_cmd is Oneshot)
            },
    {
        self.park_inner(true, None, completions)
    }

    /// Park with a deadline.  A zero deadline never blocks and never arms
    /// the timer: the turn degrades to a pure poll.
    pub fn park_timeout(&mut self, duration_ns: u64, completions: &Vec<(u64, i32, u32)>) -> (r:
        Result<TurnPlan, Error>)
        requires
            old(self).wf(),
            old(self).state.active_wait <= usize::MAX - 2,
        ensures
            old(self).same_ring(*final(self)),
            final(self).wf(),
            r is Err ==> r == Err::<TurnPlan, Error>(Error::ProtocolViolation),
            completions@.len() == 0 ==> r is Ok,
            r is Ok <==> batch_model(old(self).model(), completions@) is Ok,
            r matches Ok(plan) ==> {
                &&& plan.woken@ == woken_model(old(self).model(), completions@)
                &&& batch_model(old(self).model(), completions@) matches Ok(m) ==> final(self).slots.slots@ == m.slots
                &&& duration_ns == 0 ==> (!plan.blocks() && plan.timer_cmd is Keep)
                &&& completions@.len() > 0 ==> !plan.blocks()
                &&& old(self).state.park.signaled ==> !plan.blocks()
                &&& plan.blocks() ==> (!final(self).state.requeue_timer && !final(self).state.requeue_park && !final(self).state.park.signaled)
                &&& plan.blocks() ==> plan.timer_cmd == TimerCmd::Oneshot(duration_ns)
                &&& (duration_ns > 0 && completions@.len() == 0 && !old(self).state.park.signaled && old(self).sq@.len() + 2 <= old(self).sq_capacity) ==> plan.blocks()
                &&& plan.timer_cmd matches TimerCmd::Oneshot(ns) ==> ns == duration_ns
            },
    {
        if duration_ns == 0 {
            // a zero deadline must not arm anything: poll only
            self.park_inner(false, None, completions)
        } else {
            self.park_inner(true, Some(duration_ns), completions)
        }
    }
}

} // verus!
