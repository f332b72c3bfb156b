use vstd::prelude::*;

use crate::error::Error;

verus! {

/// Most slots a table may hold.  Keeps every encoded tag well inside `u64`
/// and every bookkeeping counter well inside `usize` on 32-bit targets too.
pub const SLOT_LIMIT: usize = 0x1000_0000;

/// Tag reserved for fire-and-forget submissions that expect no correlated
/// slot; a completion carrying it is discarded.
pub const NO_SLOT_TAG: u64 = 0;

/// Sentinel tag of the timer watch (odd, so never a slot tag).
pub const TIMER_TAG: u64 = 0x1;

/// Sentinel tag of the cross-thread wake watch (odd, so never a slot tag).
pub const PARK_TAG: u64 = 0x3;

/// The tag that identifies the slot at index `id`: even and non-zero, so it
/// collides neither with `NO_SLOT_TAG` nor with any odd sentinel.
pub open spec fn tag_of(id: nat) -> nat {
    2 * (id + 1)
}

/// The slot index a well-formed slot tag decodes back to.
pub open spec fn id_of_tag(tag: nat) -> nat
    recommends
        tag >= 2,
        tag % 2 == 0,
{
    (tag / 2 - 1) as nat
}

/// One in-flight operation: its payload, the outcome once a completion was
/// delivered, and the waiter to resume on delivery.
pub struct Slot<T> {
    /// Operation-specific state (buffer, file ownership), returned to the
    /// submitter when the operation resolves.
    pub payload: T,
    /// `(result, flags)` of the completion, absent while the operation is
    /// still in flight.
    pub outcome: Option<(i32, u32)>,
    /// The task to resume when the outcome arrives, if one registered.
    pub waiter: Option<u64>,
}

/// Arena of in-flight operations, indexed by the integer a tag encodes.
///
/// Entries are never reused: a consumed slot leaves a vacant cell behind, so
/// a stale tag can only ever name a vacant or completed cell and is detected
/// instead of aliasing a newer operation.  The price is that one table
/// serves at most `SLOT_LIMIT` operations over its lifetime; past that,
/// creation fails like a full ring.  A free list whose tags carry a
/// generation number would lift the bound while keeping detection.
pub struct SlotTable<T> {
    pub slots: Vec<Option<Slot<T>>>,
}

/// A slot exists (was created and not yet consumed).
pub open spec fn is_live<T>(s: Seq<Option<Slot<T>>>, id: int) -> bool {
    0 <= id < s.len() && s[id] is Some
}

/// A slot is armed: live, with no outcome delivered yet.
pub open spec fn is_armed<T>(s: Seq<Option<Slot<T>>>, id: int) -> bool {
    is_live(s, id) && s[id].unwrap().outcome is None
}

/// A slot is completed: live, with an outcome waiting to be consumed.
pub open spec fn is_completed<T>(s: Seq<Option<Slot<T>>>, id: int) -> bool {
    is_live(s, id) && s[id].unwrap().outcome is Some
}

/// The table after an outcome was delivered to slot `id`: the outcome is
/// stored and the waiter is taken, everything else is unchanged.
pub open spec fn deliver_spec<T>(
    s: Seq<Option<Slot<T>>>,
    id: int,
    result: i32,
    flags: u32,
) -> Seq<Option<Slot<T>>>
    recommends
        is_armed(s, id),
{
    s.update(
        id,
        Some(
            Slot {
                payload: s[id].unwrap().payload,
                outcome: Some((result, flags)),
                waiter: None,
            },
        ),
    )
}

impl<T> SlotTable<T> {
    /// Number of cells, vacant ones included.
    pub open spec fn spec_len(self) -> nat {
        self.slots@.len()
    }

    /// No tag of this table exceeds what `u64` holds.
    pub open spec fn wf(self) -> bool {
        self.spec_len() <= SLOT_LIMIT
    }

    pub fn new() -> (t: SlotTable<T>)
        ensures
            t.slots@ =~= Seq::<Option<Slot<T>>>::empty(),
            t.wf(),
    {
        SlotTable { slots: Vec::new() }
    }

    pub fn len(&self) -> (n: usize)
        ensures
            n == self.spec_len(),
    {
        self.slots.len()
    }

    /// Create a slot for a freshly issued operation, in the armed state with
    /// no outcome and no waiter.
    pub fn create(&mut self, payload: T) -> (id: usize)
        requires
            old(self).wf(),
            old(self).spec_len() < SLOT_LIMIT,
        ensures
            id == old(self).spec_len(),
            final(self).slots@ =~= old(self).slots@.push(
                Some(Slot { payload, outcome: None, waiter: None }),
            ),
            final(self).wf(),
            is_armed(final(self).slots@, id as int),
    {
        let id = self.slots.len();
        self.slots.push(Some(Slot { payload, outcome: None, waiter: None }));
        id
    }

    /// Encode the identity of slot `id` as the tag handed to the kernel:
    /// even, non-zero, and distinct for distinct indices.
    pub fn encode_tag(&self, id: usize) -> (tag: u64)
        requires
            self.wf(),
            id < self.spec_len(),
        ensures
            tag == tag_of(id as nat),
            tag != NO_SLOT_TAG,
            tag % 2 == 0,
            tag != TIMER_TAG,
            tag != PARK_TAG,
    {
        ((id as u64) + 1) * 2
    }

    /// Decode a tag back to the slot index it was encoded from.
    pub fn decode_tag(&self, tag: u64) -> (id: usize)
        requires
            self.wf(),
            tag % 2 == 0,
            tag != 0,
            id_of_tag(tag as nat) < self.spec_len(),
        ensures
            id == id_of_tag(tag as nat),
            tag == tag_of(id as nat),
    {
        (tag / 2 - 1) as usize
    }

    /// Register the waiter to resume when slot `id` completes.
    pub fn set_waiter(&mut self, id: usize, waiter: u64)
        requires
            is_live(old(self).slots@, id as int),
        ensures
            final(self).slots@ =~= old(self).slots@.update(
                id as int,
                Some(
                    Slot {
                        payload: old(self).slots@[id as int].unwrap().payload,
                        outcome: old(self).slots@[id as int].unwrap().outcome,
                        waiter: Some(waiter),
                    },
                ),
            ),
            final(self).wf() == old(self).wf(),
    {
        let entry = &mut self.slots[id];
        match entry {
            Some(slot) => {
                slot.waiter = Some(waiter);
            },
            None => {
                proof {
                    assert(false);
                }
            },
        }
    }

    /// Deliver a completion outcome to slot `id`, resuming its waiter at
    /// most once: a second delivery to the same slot, or a delivery to a
    /// vacant cell, is rejected as a correlation violation and changes
    /// nothing.
    pub fn deliver(&mut self, id: usize, result: i32, flags: u32) -> (r: Result<
        Option<u64>,
        Error,
    >)
        ensures
            is_armed(old(self).slots@, id as int) ==> {
                &&& r matches Ok(w) && w == old(self).slots@[id as int].unwrap().waiter
                &&& final(self).slots@ =~= deliver_spec(old(self).slots@, id as int, result, flags)
            },
            !is_armed(old(self).slots@, id as int) ==> {
                &&& r matches Err(e) && e == Error::ProtocolViolation
                &&& final(self).slots@ =~= old(self).slots@
            },
            final(self).wf() == old(self).wf(),
            final(self).spec_len() == old(self).spec_len(),
    {
        if id >= self.slots.len() {
            return Err(Error::ProtocolViolation);
        }
        let entry = &mut self.slots[id];
        match entry {
            Some(slot) => {
                if slot.outcome.is_some() {
                    return Err(Error::ProtocolViolation);
                }
                slot.outcome = Some((result, flags));
                let waiter = slot.waiter.take();
                Ok(waiter)
            },
            None => Err(Error::ProtocolViolation),
        }
    }

    /// Consume a completed slot: remove it and hand back the outcome with
    /// the payload.  This is how a resolving future takes its buffer and
    /// file back.
    pub fn take_completed(&mut self, id: usize) -> (r: (i32, u32, T))
        requires
            is_completed(old(self).slots@, id as int),
        ensures
            (r.0, r.1) == old(self).slots@[id as int].unwrap().outcome.unwrap(),
            r.2 == old(self).slots@[id as int].unwrap().payload,
            final(self).slots@ =~= old(self).slots@.update(id as int, None),
            final(self).wf() == old(self).wf(),
            final(self).spec_len() == old(self).spec_len(),
    {
        let mut taken: Option<Slot<T>> = None;
        core::mem::swap(&mut self.slots[id], &mut taken);
        match taken {
            Some(slot) => {
                let (result, flags) = match slot.outcome {
                    Some(o) => o,
                    None => {
                        proof {
                            assert(false);
                        }
                        unreached()
                    },
                };
                (result, flags, slot.payload)
            },
            None => {
                proof {
                    assert(false);
                }
                unreached()
            },
        }
    }

    /// Read the outcome of slot `id` without consuming anything.
    pub fn outcome_of(&self, id: usize) -> (o: Option<(i32, u32)>)
        requires
            is_live(self.slots@, id as int),
        ensures
            o == self.slots@[id as int].unwrap().outcome,
    {
        match &self.slots[id] {
            Some(slot) => slot.outcome,
            None => {
                proof {
                    assert(false);
                }
                None
            },
        }
    }

    /// Clear a delivered outcome so the same slot can wait for the next
    /// completion; the payload and the cell stay in place.  A repeating
    /// readiness stream re-arms itself this way.
    pub fn reset_outcome(&mut self, id: usize)
        requires
            is_completed(old(self).slots@, id as int),
        ensures
            final(self).slots@ =~= old(self).slots@.update(
                id as int,
                Some(
                    Slot {
                        payload: old(self).slots@[id as int].unwrap().payload,
                        outcome: None,
                        waiter: old(self).slots@[id as int].unwrap().waiter,
                    },
                ),
            ),
            is_armed(final(self).slots@, id as int),
            final(self).wf() == old(self).wf(),
            final(self).spec_len() == old(self).spec_len(),
    {
        let entry = &mut self.slots[id];
        match entry {
            Some(slot) => {
                slot.outcome = None;
            },
            None => {
                proof {
                    assert(false);
                }
            },
        }
    }

    /// Reclaim the payload of a slot whose submission never took effect
    /// (the ring was full), without a tag ever reaching the kernel.
    pub fn abort(&mut self, id: usize) -> (p: Option<T>)
        ensures
            is_live(old(self).slots@, id as int) ==> {
                &&& p == Some(old(self).slots@[id as int].unwrap().payload)
                &&& final(self).slots@ =~= old(self).slots@.update(id as int, None)
            },
            !is_live(old(self).slots@, id as int) ==> {
                &&& p is None
                &&& final(self).slots@ =~= old(self).slots@
            },
            final(self).wf() == old(self).wf(),
            final(self).spec_len() == old(self).spec_len(),
    {
        if id >= self.slots.len() {
            return None;
        }
        let mut taken: Option<Slot<T>> = None;
        core::mem::swap(&mut self.slots[id], &mut taken);
        match taken {
            Some(slot) => Some(slot.payload),
            None => None,
        }
    }
}

/// Tag uniqueness: two distinct slots never share a tag, so a completion can
/// only ever be correlated with the one operation that produced it.
pub proof fn lemma_tag_unique(i: nat, j: nat)
    requires
        i != j,
    ensures
        tag_of(i) != tag_of(j),
{
}

/// Tags round-trip: decoding the tag of slot `i` yields `i` again, with no
/// knowledge of the payload type.
pub proof fn lemma_tag_round_trip(i: nat)
    ensures
        id_of_tag(tag_of(i)) == i,
{
}

/// Slot tags never collide with the reserved values: they are even and
/// non-zero, while the sentinels are odd or zero.
pub proof fn lemma_tag_not_sentinel(i: nat)
    ensures
        tag_of(i) != NO_SLOT_TAG,
        tag_of(i) % 2 == 0,
        tag_of(i) != TIMER_TAG,
        tag_of(i) != PARK_TAG,
{
}

/// Delivery happens at most once per slot: delivering an outcome leaves the
/// slot completed, and a completed slot accepts no further delivery — a
/// second completion under the same tag is rejected, not applied.
pub proof fn lemma_deliver_at_most_once<T>(s: Seq<Option<Slot<T>>>, id: int, result: i32, flags: u32)
    requires
        is_armed(s, id),
    ensures
        is_completed(deliver_spec(s, id, result, flags), id),
        !is_armed(deliver_spec(s, id, result, flags), id),
{
}

/// Delivery is independent across slots: delivering an outcome to one slot
/// leaves every other slot — its payload, outcome and waiter — exactly as
/// it was.  With tag uniqueness this is why concurrent operations can never
/// have their results or payloads swapped, whatever order their
/// completions arrive in.
pub proof fn lemma_deliver_independent<T>(
    s: Seq<Option<Slot<T>>>,
    i: int,
    j: int,
    result: i32,
    flags: u32,
)
    requires
        is_armed(s, j),
        0 <= i < s.len(),
        i != j,
    ensures
        deliver_spec(s, j, result, flags)[i] == s[i],
{
}

/// A delivered outcome also takes the waiter with it: whoever is resumed by
/// the delivery cannot be resumed by a later one, because the updated slot
/// holds no waiter any more.
pub proof fn lemma_deliver_clears_waiter<T>(
    s: Seq<Option<Slot<T>>>,
    id: int,
    result: i32,
    flags: u32,
)
    requires
        is_armed(s, id),
    ensures
        deliver_spec(s, id, result, flags)[id].unwrap().waiter is None,
{
}

} // verus!
