//! A pool of equally sized, reference-counted buffers.
//!
//! A pool hands out buffers of a fixed size and recycles the ones whose last
//! reference has been given up, so that a steady stream of equally sized
//! requests stops reaching the allocator after the first few.
//!
//! A buffer is zero-filled when it is allocated. It is *not* cleared when it is
//! recycled: a caller that needs zeroes on every acquisition clears the buffer
//! itself.
//!
//! The pool owns the memory. An [`AVBufferRef`] is one counted reference to a
//! buffer of it; every operation on the reference names the pool.

use crate::block::{Block, Requests, MAX_SIZE};
use crate::error::{RsmpegError, AVERROR, EINVAL, ENOMEM};
use crate::pool_state::{BufferState, PoolState, ReferenceState};
use vstd::prelude::*;

verus! {

/// One buffer of a pool. The memory is gone once it was given back.
struct Slot {
    block: Option<Block>,
    refs: usize,
}

impl Slot {
    spec fn wf(self) -> bool {
        self.block matches Some(block) ==> block.wf() && block.is_placed()
    }

    spec fn state(self) -> Option<BufferState> {
        match self.block {
            Some(block) => Some(
                BufferState { refs: self.refs as nat, data: block.address(), bytes: block@ },
            ),
            None => None,
        }
    }
}

/// A pool of buffers.
pub struct AVBufferPool {
    buffer_size: usize,
    open: bool,
    slots: Vec<Slot>,
    idle: Vec<usize>,
    requests: Requests,
}

/// One counted reference to a buffer of a pool.
pub struct AVBufferRef {
    slot: usize,
    data: usize,
    size: usize,
}

impl View for AVBufferPool {
    type V = PoolState;

    closed spec fn view(&self) -> PoolState {
        PoolState {
            buffer_size: self.buffer_size as nat,
            open: self.open,
            buffers: self.slots@.map_values(|slot: Slot| slot.state()),
            idle: self.idle@,
            requests: self.requests@,
        }
    }
}

impl View for AVBufferRef {
    type V = ReferenceState;

    closed spec fn view(&self) -> ReferenceState {
        ReferenceState { slot: self.slot as int, data: self.data, size: self.size as nat }
    }
}

impl AVBufferPool {
    /// The pool's invariant.
    pub closed spec fn wf(self) -> bool {
        &&& self@.inv()
        &&& forall|i: int| 0 <= i < self.slots@.len() ==> (#[trigger] self.slots@[i]).wf()
    }

    /// Of a well-formed pool, the invariant of its state is known.
    pub proof fn lemma_wf(self)
        requires
            self.wf(),
        ensures
            self@.inv(),
    {
    }

    /// The memory of buffer `slot`.
    pub closed spec fn block(self, slot: int) -> Block {
        self.slots@[slot].block->0
    }

    /// The buffers of this pool that `later` still has are where they were, and hold
    /// what they held; `except` is the one of which this is not said.
    pub open spec fn keeps_blocks(self, later: AVBufferPool, except: Option<int>) -> bool {
        forall|slot: int| #[trigger]
            later@.allocated(slot) && self@.allocated(slot) && except != Some(slot)
                ==> later.block(slot) == self.block(slot)
    }

    /// At all times, the address of a buffer is where the allocator placed its
    /// memory, and what the buffer holds is what lies there.
    pub proof fn law_data_is_where_the_bytes_lie(self, slot: int)
        requires
            self.wf(),
            self@.allocated(slot),
        ensures
            self.block(slot).is_placed(),
            self.block(slot).address() == self@.buffer(slot).data,
            self.block(slot)@ == self@.buffer(slot).bytes,
    {
        assert(self.slots@[slot].wf());
    }

    /// Creates a pool whose buffers are all `buffer_size` bytes.
    ///
    /// A size of zero is rejected with `EINVAL`. Nothing is allocated before the
    /// first acquisition.
    pub fn new(buffer_size: usize) -> (pool: Result<AVBufferPool, RsmpegError>)
        ensures
            buffer_size == 0 ==> pool == Err::<AVBufferPool, RsmpegError>(
                crate::error::averror_of(EINVAL),
            ),
            buffer_size > 0 ==> pool is Ok,
            pool matches Ok(pool) ==> pool.wf() && pool@ == PoolState::created(
                buffer_size as nat,
            ),
    {
        if buffer_size == 0 {
            return Err(RsmpegError::AVError(AVERROR(EINVAL)));
        }
        let pool = AVBufferPool {
            buffer_size,
            open: true,
            slots: Vec::new(),
            idle: Vec::new(),
            requests: Requests::new(),
        };
        proof {
            assert(pool@.buffers =~= Seq::empty());
            crate::pool_state::lemma_created_inv(buffer_size as nat);
        }
        Ok(pool)
    }

    /// The size in bytes of every buffer of this pool.
    pub fn buffer_size(&self) -> (size: usize)
        ensures
            size == self@.buffer_size,
    {
        self.buffer_size
    }

    /// Hands out a buffer: one of those that came back, if there is any, and else
    /// the block `allocated`, which the allocator was asked for. Without either,
    /// the answer is `ENOMEM`.
    pub fn get_from(&mut self, allocated: Option<Block>) -> (buffer: Result<
        AVBufferRef,
        RsmpegError,
    >)
        requires
            old(self).wf(),
            old(self)@.open,
            allocated matches Some(block) ==> block.wf() && block.is_placed() && block@
                == crate::block::zeros(old(self)@.buffer_size),
        ensures
            final(self).wf(),
            old(self)@.idle.len() == 0 && allocated is None ==> buffer == Err::<
                AVBufferRef,
                RsmpegError,
            >(crate::error::averror_of(ENOMEM)) && final(self)@ == old(self)@,
            old(self)@.idle.len() == 0 && allocated is Some ==> {
                &&& buffer is Ok
                &&& buffer->Ok_0@.slot == old(self)@.buffers.len()
                &&& final(self)@ == old(self)@.grown(allocated->0.address())
                &&& final(self).block(buffer->Ok_0@.slot) == allocated->0
            },
            old(self)@.idle.len() > 0 ==> {
                &&& buffer is Ok
                &&& buffer->Ok_0@.slot == old(self)@.next_idle()
                &&& final(self)@ == old(self)@.recycled()
            },
            old(self).keeps_blocks(*final(self), None),
            buffer matches Ok(buffer) ==> buffer@.belongs_to(final(self)@),
    {
        match self.idle.pop() {
            Some(slot) => {
                proof {
                    crate::pool_state::lemma_recycled_inv(old(self)@);
                }
                self.slots[slot].refs = 1;
                assert(self@ =~= old(self)@.recycled());
                Ok(self.reference(slot))
            },
            None => match allocated {
                None => Err(RsmpegError::AVError(AVERROR(ENOMEM))),
                Some(block) => {
                    let slot: usize = self.slots.len();
                    proof {
                        block.lemma_wf();
                    }
                    let ghost data = block.address();
                    self.slots.push(Slot { block: Some(block), refs: 1 });
                    proof {
                        assert(self.slots.len() <= usize::MAX);
                        assert(self@ =~= old(self)@.grown(data));
                        crate::pool_state::lemma_grown_inv(old(self)@, data);
                    }
                    Ok(self.reference(slot))
                },
            },
        }
    }

    /// Hands out a buffer, recycling the one that came back last, if there is any,
    /// and allocating a zero-filled one otherwise. The allocator is asked once if no
    /// buffer is idle, and else not at all. When it has no memory, the answer is
    /// `ENOMEM`, and the pool's buffers are as before.
    pub fn get(&mut self) -> (buffer: Result<AVBufferRef, RsmpegError>)
        requires
            old(self).wf(),
            old(self)@.open,
        ensures
            final(self).wf(),
            old(self)@.idle.len() > 0 ==> {
                &&& buffer is Ok
                &&& buffer->Ok_0@.slot == old(self)@.next_idle()
                &&& final(self)@ == old(self)@.recycled()
            },
            old(self)@.idle.len() == 0 ==> exists|block: Option<Block>| #[trigger]
                Block::is_allocation(old(self)@.buffer_size, block) && match block {
                    Some(block) => {
                        &&& buffer is Ok
                        &&& buffer->Ok_0@.slot == old(self)@.buffers.len()
                        &&& final(self)@ == old(self)@.requested(true).grown(block.address())
                        &&& final(self).block(buffer->Ok_0@.slot) == block
                        &&& block.is_placed()
                    },
                    None => {
                        &&& buffer == Err::<AVBufferRef, RsmpegError>(
                            crate::error::averror_of(ENOMEM),
                        )
                        &&& final(self)@ == old(self)@.requested(false)
                    },
                },
            old(self)@.idle.len() == 0 && old(self)@.buffer_size > MAX_SIZE ==> buffer is Err,
            old(self).keeps_blocks(*final(self), None),
            buffer matches Ok(buffer) ==> buffer@.belongs_to(final(self)@),
    {
        let allocated = if self.idle.len() == 0 {
            let block = self.requests.alloc_zeroed(self.buffer_size);
            proof {
                crate::pool_state::lemma_requested_inv(old(self)@, block is Some);
                assert(self@ =~= old(self)@.requested(block is Some));
            }
            block
        } else {
            None
        };
        self.get_from(allocated)
    }

    /// Closes the pool. The idle buffers are freed at once; a buffer that somebody
    /// still refers to stays usable, and is freed when its last reference is given
    /// up. The pool hands out nothing any more.
    pub fn uninit(&mut self)
        requires
            old(self).wf(),
            old(self)@.open,
        ensures
            final(self).wf(),
            final(self)@ == old(self)@.closed(),
            old(self).keeps_blocks(*final(self), None),
    {
        let mut slot: usize = 0;
        while slot < self.slots.len()
            invariant
                old(self).wf(),
                slot <= self.slots@.len(),
                self.slots@.len() == old(self).slots@.len(),
                self.buffer_size == old(self).buffer_size,
                self.requests == old(self).requests,
                forall|i: int|
                    0 <= i < slot ==> (#[trigger] self.slots@[i]).block is None
                        || self.slots@[i] == old(self).slots@[i],
                forall|i: int| 0 <= i < self.slots@.len() ==> (#[trigger] self.slots@[i]).wf(),
                forall|i: int|
                    0 <= i < slot ==> (#[trigger] self.slots@[i]).state()
                        == old(self)@.closed().buffers[i],
                forall|i: int|
                    slot <= i < self.slots@.len() ==> #[trigger] self.slots@[i] == old(
                        self,
                    ).slots@[i],
            decreases self.slots@.len() - slot,
        {
            assert(self.slots@[slot as int].state() == old(self)@.buffers[slot as int]);
            if self.slots[slot].refs == 0 {
                self.slots[slot].block = None;
            }
            slot = slot + 1;
        }
        self.idle.clear();
        self.open = false;
        proof {
            assert(self@ =~= old(self)@.closed());
            crate::pool_state::lemma_closed_inv(old(self)@);
        }
    }

    /// The reference that stands for buffer `slot`.
    fn reference(&self, slot: usize) -> (buffer: AVBufferRef)
        requires
            self.wf(),
            self@.held(slot as int),
        ensures
            buffer@.slot == slot,
            buffer@.belongs_to(self@),
    {
        let data: usize = match &self.slots[slot].block {
            Some(block) => block.data(),
            None => 0,
        };
        AVBufferRef { slot, data, size: self.buffer_size }
    }
}

impl AVBufferRef {
    /// The address of the first byte of the buffer.
    pub fn data(&self) -> (data: usize)
        ensures
            data == self@.data,
    {
        self.data
    }

    /// The size of the buffer in bytes.
    pub fn size(&self) -> (size: usize)
        ensures
            size == self@.size,
    {
        self.size
    }

    /// How many references to the buffer there are.
    pub fn get_ref_count(&self, pool: &AVBufferPool) -> (count: usize)
        requires
            pool.wf(),
            self@.belongs_to(pool@),
        ensures
            count == pool@.buffer(self@.slot).refs,
    {
        pool.slots[self.slot].refs
    }

    /// Whether this is the only reference to the buffer.
    pub fn is_writable(&self, pool: &AVBufferPool) -> (writable: bool)
        requires
            pool.wf(),
            self@.belongs_to(pool@),
        ensures
            writable == (pool@.buffer(self@.slot).refs == 1),
    {
        pool.slots[self.slot].refs == 1
    }

    /// Takes one more reference to the buffer.
    pub fn clone_ref(&self, pool: &mut AVBufferPool) -> (reference: AVBufferRef)
        requires
            old(pool).wf(),
            self@.belongs_to(old(pool)@),
            old(pool)@.buffer(self@.slot).refs < usize::MAX,
        ensures
            final(pool).wf(),
            final(pool)@ == old(pool)@.referenced(self@.slot),
            old(pool).keeps_blocks(*final(pool), None),
            reference@ == self@,
            reference@.belongs_to(final(pool)@),
    {
        proof {
            crate::pool_state::lemma_referenced_inv(pool@, self@.slot);
        }
        let refs: usize = pool.slots[self.slot].refs;
        pool.slots[self.slot].refs = refs + 1;
        assert(pool@ =~= old(pool)@.referenced(self@.slot));
        AVBufferRef { slot: self.slot, data: self.data, size: self.size }
    }

    /// Gives the reference up. With the last one the buffer goes back to the pool,
    /// or is freed if the pool was closed.
    pub fn unref(self, pool: &mut AVBufferPool)
        requires
            old(pool).wf(),
            self@.belongs_to(old(pool)@),
        ensures
            final(pool).wf(),
            final(pool)@ == old(pool)@.released(self@.slot),
            old(pool).keeps_blocks(*final(pool), None),
    {
        proof {
            crate::pool_state::lemma_released_inv(pool@, self@.slot);
        }
        let refs: usize = pool.slots[self.slot].refs;
        if refs > 1 {
            pool.slots[self.slot].refs = refs - 1;
        } else if pool.open {
            pool.slots[self.slot].refs = 0;
            pool.idle.push(self.slot);
        } else {
            pool.slots[self.slot].block = None;
        }
        assert(pool@ =~= old(pool)@.released(self@.slot));
    }

    /// The bytes of the buffer.
    pub fn as_slice<'a>(&self, pool: &'a AVBufferPool) -> (bytes: &'a [u8])
        requires
            pool.wf(),
            self@.belongs_to(pool@),
        ensures
            bytes@ == pool@.buffer(self@.slot).bytes,
            bytes@.len() == self@.size,
    {
        match &pool.slots[self.slot].block {
            Some(block) => block.as_slice(),
            None => &[],
        }
    }

    /// Overwrites the bytes of the buffer from `at` on. Only the holder of the only
    /// reference may do so.
    pub fn write(&self, pool: &mut AVBufferPool, at: usize, bytes: &[u8])
        requires
            old(pool).wf(),
            self@.belongs_to(old(pool)@),
            old(pool)@.buffer(self@.slot).refs == 1,
            at + bytes@.len() <= self@.size,
        ensures
            final(pool).wf(),
            final(pool)@ == old(pool)@.written(self@.slot, at as int, bytes@),
            old(pool).keeps_blocks(*final(pool), Some(self@.slot)),
            final(pool).block(self@.slot).same_place(old(pool).block(self@.slot)),
            self@.belongs_to(final(pool)@),
    {
        proof {
            crate::pool_state::lemma_written_inv(pool@, self@.slot, at as int, bytes@);
        }
        match &mut pool.slots[self.slot].block {
            Some(block) => block.write(at, bytes),
            None => {},
        }
        proof {
            assert(pool@ =~= old(pool)@.written(self@.slot, at as int, bytes@));
            assert(old(pool).slots@[self@.slot].wf());
            pool.block(self@.slot).lemma_written_is_placed(old(pool).block(self@.slot));
        }
    }
}

} // verus!
