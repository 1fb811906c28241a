//! The mathematical model of a buffer pool: its states, and its transitions.

use crate::block::{overwritten, zeros, RequestCount, ALIGNMENT};
use vstd::prelude::*;

verus! {

/// A buffer that occupies memory.
#[verifier::ext_equal]
pub struct BufferState {
    /// How many references to the buffer there are.
    pub refs: nat,
    /// The address of the first byte.
    pub data: usize,
    /// What the buffer holds.
    pub bytes: Seq<u8>,
}

/// A pool and all the buffers that it ever allocated.
#[verifier::ext_equal]
pub struct PoolState {
    /// The size of every buffer.
    pub buffer_size: nat,
    /// Whether the pool still hands out buffers.
    pub open: bool,
    /// The buffers in the order of their allocation; `None` stands for a buffer
    /// whose memory was given back to the allocator.
    pub buffers: Seq<Option<BufferState>>,
    /// The buffers that nobody refers to, the one returned last at the end.
    pub idle: Seq<usize>,
    /// The pool's requests to the allocator.
    pub requests: RequestCount,
}

/// One counted reference to a buffer of a pool.
pub struct ReferenceState {
    /// Which of the pool's buffers this refers to.
    pub slot: int,
    /// The address of the buffer's first byte.
    pub data: usize,
    /// The size of the buffer in bytes.
    pub size: nat,
}

impl ReferenceState {
    /// This is one of the references that `pool` counts.
    pub open spec fn belongs_to(self, pool: PoolState) -> bool {
        &&& pool.held(self.slot)
        &&& self.data == pool.buffer(self.slot).data
        &&& self.size == pool.buffer_size
    }
}

impl PoolState {
    /// A pool that has not handed out anything yet.
    pub open spec fn created(buffer_size: nat) -> PoolState {
        PoolState {
            buffer_size,
            open: true,
            buffers: Seq::empty(),
            idle: Seq::empty(),
            requests: RequestCount::none(),
        }
    }

    /// Buffer `slot` occupies memory.
    pub open spec fn allocated(self, slot: int) -> bool {
        0 <= slot < self.buffers.len() && self.buffers[slot] is Some
    }

    /// Buffer `slot`, if it occupies memory.
    pub open spec fn buffer(self, slot: int) -> BufferState {
        self.buffers[slot]->0
    }

    /// Somebody refers to buffer `slot`.
    pub open spec fn held(self, slot: int) -> bool {
        self.allocated(slot) && self.buffer(slot).refs > 0
    }

    /// The buffers that somebody refers to.
    pub open spec fn held_slots(self) -> Set<int> {
        Set::new(|slot: int| self.held(slot))
    }

    /// What holds of a pool at all times: every buffer has the pool's size and an
    /// aligned address; the idle buffers are those without a reference, each
    /// listed once; only a closed pool gives memory back, and it keeps no idle
    /// buffer.
    pub open spec fn inv(self) -> bool {
        &&& 0 < self.buffer_size
        &&& self.buffers.len() <= usize::MAX
        &&& forall|slot: int| #[trigger]
            self.allocated(slot) ==> {
                &&& self.buffer(slot).bytes.len() == self.buffer_size
                &&& 0 < self.buffer(slot).data
                &&& self.buffer(slot).data % ALIGNMENT == 0
            }
        &&& self.open ==> forall|slot: int|
            0 <= slot < self.buffers.len() ==> #[trigger] self.allocated(slot)
        &&& !self.open ==> self.idle.len() == 0
        &&& self.idle.no_duplicates()
        &&& forall|k: int|
            0 <= k < self.idle.len() ==> self.allocated(#[trigger] self.idle[k] as int)
                && !self.held(self.idle[k] as int)
        &&& forall|slot: int| #[trigger]
            self.allocated(slot) && !self.held(slot) ==> self.idle.contains(slot as usize)
    }

    /// A buffer at `data` would share no byte with buffer `slot`.
    pub open spec fn clear_of(self, slot: int, data: usize) -> bool {
        ||| data + self.buffer_size <= self.buffer(slot).data
        ||| self.buffer(slot).data + self.buffer_size <= data
    }

    /// A buffer at `data` would share no byte with any buffer of the pool.
    pub open spec fn has_room_at(self, data: usize) -> bool {
        forall|slot: int| #[trigger] self.allocated(slot) ==> self.clear_of(slot, data)
    }

    /// No two buffers share a byte of memory.
    pub open spec fn disjoint(self) -> bool {
        forall|one: int, other: int| #[trigger]
            self.allocated(one) && #[trigger] self.allocated(other) && one != other
                ==> self.clear_of(one, self.buffer(other).data)
    }

    /// The pool after it asked the allocator for a block, and got one or not.
    pub open spec fn requested(self, granted: bool) -> PoolState {
        PoolState { requests: self.requests.one_more(granted), ..self }
    }

    /// The pool after it took over a new block at `data` and handed it out.
    pub open spec fn grown(self, data: usize) -> PoolState {
        PoolState {
            buffers: self.buffers.push(
                Some(BufferState { refs: 1, data, bytes: zeros(self.buffer_size) }),
            ),
            ..self
        }
    }

    /// The buffer that the next acquisition takes from the idle ones.
    pub open spec fn next_idle(self) -> int {
        self.idle.last() as int
    }

    /// The pool after it handed out an idle buffer again, as it was left.
    pub open spec fn recycled(self) -> PoolState {
        PoolState { idle: self.idle.drop_last(), ..self.with_refs(self.next_idle(), 1) }
    }

    /// The buffer that the next acquisition hands out.
    pub open spec fn next_slot(self) -> int {
        if self.idle.len() > 0 {
            self.next_idle()
        } else {
            self.buffers.len() as int
        }
    }

    /// The pool after an acquisition. The allocator is asked for a block only if no
    /// buffer is idle; `data` is where it placed the block.
    pub open spec fn acquired(self, data: usize) -> PoolState {
        if self.idle.len() > 0 {
            self.recycled()
        } else {
            self.requested(true).grown(data)
        }
    }

    /// The pool with `refs` references to buffer `slot`.
    pub open spec fn with_refs(self, slot: int, refs: nat) -> PoolState {
        PoolState {
            buffers: self.buffers.update(
                slot,
                Some(BufferState { refs, ..self.buffer(slot) }),
            ),
            ..self
        }
    }

    /// The pool after one more reference to buffer `slot` was taken.
    pub open spec fn referenced(self, slot: int) -> PoolState {
        self.with_refs(slot, self.buffer(slot).refs + 1)
    }

    /// The pool after one reference to buffer `slot` was given up. Without a
    /// reference left the buffer becomes idle, or, if the pool is closed, its
    /// memory is given back.
    pub open spec fn released(self, slot: int) -> PoolState {
        if self.buffer(slot).refs > 1 {
            self.with_refs(slot, (self.buffer(slot).refs - 1) as nat)
        } else if self.open {
            PoolState { idle: self.idle.push(slot as usize), ..self.with_refs(slot, 0) }
        } else {
            PoolState { buffers: self.buffers.update(slot, None), ..self }
        }
    }

    /// The pool after `patch` was written into buffer `slot` from `at` on.
    pub open spec fn written(self, slot: int, at: int, patch: Seq<u8>) -> PoolState {
        PoolState {
            buffers: self.buffers.update(
                slot,
                Some(
                    BufferState {
                        bytes: overwritten(self.buffer(slot).bytes, at, patch),
                        ..self.buffer(slot)
                    },
                ),
            ),
            ..self
        }
    }

    /// The pool after its owner closed it: the memory of the idle buffers is given
    /// back, and the held ones stay as they are.
    pub open spec fn closed(self) -> PoolState {
        PoolState {
            open: false,
            idle: Seq::empty(),
            buffers: Seq::new(
                self.buffers.len(),
                |slot: int|
                    if self.held(slot) {
                        self.buffers[slot]
                    } else {
                        None
                    },
            ),
            ..self
        }
    }

    /// Nothing of the pool is left: it is closed, and no buffer occupies memory.
    pub open spec fn gone(self) -> bool {
        !self.open && forall|slot: int| !#[trigger] self.allocated(slot)
    }
}

/// A new pool satisfies the invariant.
pub proof fn lemma_created_inv(buffer_size: nat)
    requires
        0 < buffer_size,
    ensures
        PoolState::created(buffer_size).inv(),
{
}

/// Asking the allocator keeps the invariant.
pub proof fn lemma_requested_inv(pool: PoolState, granted: bool)
    requires
        pool.inv(),
    ensures
        pool.requested(granted).inv(),
{
    let next = pool.requested(granted);
    assert forall|slot: int| #[trigger] next.allocated(slot) <==> pool.allocated(slot) by {}
    assert forall|k: int| 0 <= k < next.idle.len() implies next.allocated(
        #[trigger] next.idle[k] as int,
    ) && !next.held(next.idle[k] as int) by {
        assert(pool.allocated(pool.idle[k] as int));
    }
    assert forall|slot: int| #[trigger] next.allocated(slot) && !next.held(
        slot,
    ) implies next.idle.contains(slot as usize) by {
        assert(pool.allocated(slot) && !pool.held(slot));
    }
    assert forall|slot: int| #[trigger] next.allocated(slot) implies {
        &&& next.buffer(slot).bytes.len() == next.buffer_size
        &&& 0 < next.buffer(slot).data
        &&& next.buffer(slot).data % ALIGNMENT == 0
    } by {
        assert(pool.allocated(slot));
    }
    assert forall|slot: int| 0 <= slot < next.buffers.len() && next.open implies
        #[trigger] next.allocated(slot) by {
        assert(pool.allocated(slot));
    }
}

/// Growing keeps the invariant.
pub proof fn lemma_grown_inv(pool: PoolState, data: usize)
    requires
        pool.inv(),
        pool.open,
        pool.buffers.len() < usize::MAX,
        0 < data,
        data % ALIGNMENT == 0,
    ensures
        pool.grown(data).inv(),
{
    let next = pool.grown(data);
    assert forall|slot: int| #[trigger] next.allocated(slot) && !next.held(
        slot,
    ) implies next.idle.contains(slot as usize) by {
        assert(pool.allocated(slot));
    }
    assert forall|k: int| 0 <= k < next.idle.len() implies next.allocated(
        #[trigger] next.idle[k] as int,
    ) && !next.held(next.idle[k] as int) by {
        assert(pool.allocated(pool.idle[k] as int));
    }
    assert forall|slot: int| 0 <= slot < next.buffers.len() implies #[trigger] next.allocated(
        slot,
    ) by {
        if slot < pool.buffers.len() {
            assert(pool.allocated(slot));
        }
    }
    assert forall|slot: int| #[trigger] next.allocated(slot) implies {
        &&& next.buffer(slot).bytes.len() == next.buffer_size
        &&& 0 < next.buffer(slot).data
        &&& next.buffer(slot).data % ALIGNMENT == 0
    } by {
        if slot < pool.buffers.len() {
            assert(pool.allocated(slot));
        }
    }
}

/// Recycling takes a buffer without references, and keeps the invariant.
pub proof fn lemma_recycled_inv(pool: PoolState)
    requires
        pool.inv(),
        pool.idle.len() > 0,
    ensures
        pool.allocated(pool.next_idle()),
        pool.buffer(pool.next_idle()).refs == 0,
        pool.recycled().inv(),
{
    let next = pool.recycled();
    let taken = pool.next_idle();
    assert(pool.allocated(pool.idle[pool.idle.len() - 1] as int));
    assert forall|slot: int| #[trigger] next.allocated(slot) implies pool.allocated(slot) by {}
    assert forall|slot: int| #[trigger] next.allocated(slot) && !next.held(
        slot,
    ) implies next.idle.contains(slot as usize) by {
        assert(pool.allocated(slot));
        let k = choose|k: int| 0 <= k < pool.idle.len() && pool.idle[k] == slot as usize;
        assert(next.idle[k] == slot as usize);
    }
    assert forall|k: int| 0 <= k < next.idle.len() implies next.allocated(
        #[trigger] next.idle[k] as int,
    ) && !next.held(next.idle[k] as int) by {
        assert(pool.allocated(pool.idle[k] as int));
        assert(pool.idle[k] != pool.idle[pool.idle.len() - 1]);
    }
    assert forall|slot: int| 0 <= slot < next.buffers.len() implies #[trigger] next.allocated(
        slot,
    ) by {
        assert(pool.allocated(slot));
    }
}

/// Taking one more reference keeps the invariant.
pub proof fn lemma_referenced_inv(pool: PoolState, slot: int)
    requires
        pool.inv(),
        pool.held(slot),
    ensures
        pool.referenced(slot).inv(),
{
    lemma_changed_inv(pool, pool.referenced(slot), slot);
}

/// Writing into a buffer keeps the invariant.
pub proof fn lemma_written_inv(pool: PoolState, slot: int, at: int, patch: Seq<u8>)
    requires
        pool.inv(),
        pool.held(slot),
    ensures
        pool.written(slot, at, patch).inv(),
{
    lemma_changed_inv(pool, pool.written(slot, at, patch), slot);
}

/// A change of one held buffer that leaves it held, and leaves its size and its
/// address alone, keeps the invariant.
proof fn lemma_changed_inv(pool: PoolState, next: PoolState, changed: int)
    requires
        pool.inv(),
        pool.held(changed),
        next.buffer_size == pool.buffer_size,
        next.open == pool.open,
        next.idle == pool.idle,
        next.buffers == pool.buffers.update(changed, next.buffers[changed]),
        next.held(changed),
        next.buffer(changed).data == pool.buffer(changed).data,
        next.buffer(changed).bytes.len() == pool.buffer(changed).bytes.len(),
    ensures
        next.inv(),
{
    assert forall|slot: int| #[trigger] next.allocated(slot) <==> pool.allocated(slot) by {}
    assert forall|slot: int| next.held(slot) <==> pool.held(slot) by {}
    assert forall|slot: int| #[trigger] next.allocated(slot) implies {
        &&& next.buffer(slot).bytes.len() == next.buffer_size
        &&& 0 < next.buffer(slot).data
        &&& next.buffer(slot).data % ALIGNMENT == 0
    } by {
        assert(pool.allocated(slot));
    }
    assert forall|k: int| 0 <= k < next.idle.len() implies next.allocated(
        #[trigger] next.idle[k] as int,
    ) && !next.held(next.idle[k] as int) by {
        assert(pool.allocated(pool.idle[k] as int));
    }
    assert forall|slot: int| 0 <= slot < next.buffers.len() && next.open implies
        #[trigger] next.allocated(slot) by {
        assert(pool.allocated(slot));
    }
    assert forall|slot: int| #[trigger] next.allocated(slot) && !next.held(
        slot,
    ) implies next.idle.contains(slot as usize) by {
        assert(pool.allocated(slot) && !pool.held(slot));
    }
}

/// Giving up a reference keeps the invariant.
pub proof fn lemma_released_inv(pool: PoolState, slot: int)
    requires
        pool.inv(),
        pool.held(slot),
    ensures
        pool.released(slot).inv(),
{
    let next = pool.released(slot);
    if pool.buffer(slot).refs > 1 {
        lemma_changed_inv(pool, next, slot);
    } else {
        assert forall|other: int| #[trigger] next.allocated(other) implies pool.allocated(
            other,
        ) by {}
        assert forall|other: int| other != slot implies (next.allocated(other)
            <==> #[trigger] pool.allocated(other)) by {}
        assert forall|k: int| 0 <= k < pool.idle.len() implies #[trigger] pool.idle[k] as int
            != slot by {
            assert(!pool.held(pool.idle[k] as int));
        }
        assert forall|k: int| 0 <= k < next.idle.len() implies next.allocated(
            #[trigger] next.idle[k] as int,
        ) && !next.held(next.idle[k] as int) by {
            if k < pool.idle.len() {
                assert(pool.allocated(pool.idle[k] as int));
                assert(next.idle[k] == pool.idle[k]);
            }
        }
        assert forall|other: int| #[trigger] next.allocated(other) && !next.held(
            other,
        ) implies next.idle.contains(other as usize) by {
            if other == slot {
                assert(next.idle[pool.idle.len() as int] == slot as usize);
            } else {
                assert(pool.allocated(other) && !pool.held(other));
                let k = choose|k: int|
                    0 <= k < pool.idle.len() && pool.idle[k] == other as usize;
                assert(next.idle[k] == other as usize);
            }
        }
        assert forall|other: int| 0 <= other < next.buffers.len() && next.open implies
            #[trigger] next.allocated(other) by {
            assert(pool.allocated(other));
        }
    }
}

/// Closing a pool keeps the invariant.
pub proof fn lemma_closed_inv(pool: PoolState)
    requires
        pool.inv(),
    ensures
        pool.closed().inv(),
{
    let next = pool.closed();
    assert forall|slot: int| #[trigger] next.allocated(slot) implies pool.allocated(slot)
        && pool.held(slot) && next.buffer(slot) == pool.buffer(slot) by {}
}

} // verus!
