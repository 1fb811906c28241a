//! What the calls on a pool and on its references do, and how they relate.
//!
//! A law speaks of calls of the library: `call_ensures(f, arguments, result)` says
//! that `f` was called with these arguments and returned this result. A parameter
//! that is a mutable reference stands for what it refers to before the call, and
//! inside `final(..)` after it. Where a law speaks of several calls on one pool, each
//! has a reference of its own, and one refers to what the one before it left.

use crate::block::Block;
use crate::buffer_pool::{AVBufferPool, AVBufferRef};
use crate::error::RsmpegError;
use crate::pool_laws::PoolStep;
use crate::pool_state::PoolState;
use vstd::prelude::*;

verus! {

/// A pool is created exactly if its buffers are not empty; otherwise the error has
/// the code -22. A new pool has the very size that was asked for. It is open, has no
/// buffer, and has not asked for memory.
pub proof fn law_new_pool_has_the_requested_size(
    buffer_size: usize,
    pool: Result<AVBufferPool, RsmpegError>,
)
    requires
        call_ensures(AVBufferPool::new, (buffer_size,), pool),
    ensures
        pool is Ok <==> buffer_size != 0,
        pool matches Err(RsmpegError::AVError(code)) ==> code == -22,
        pool matches Ok(pool) ==> {
            &&& pool.wf()
            &&& pool@.open
            &&& pool@.buffer_size == buffer_size
            &&& pool@.buffers.len() == 0
            &&& pool@.idle.len() == 0
            &&& pool@.requests.asked == 0
            &&& pool@.requests.granted == 0
        },
        pool matches Ok(pool) ==> forall|size: usize| #[trigger]
            call_ensures(AVBufferPool::buffer_size, (&pool,), size) ==> size == buffer_size,
{
}

/// An acquisition leaves the pool open and its size as it is. It gives out a buffer
/// that nobody held, with one reference, and touches no other buffer.
///
/// As long as any buffer of the pool is held by nobody, the acquisition succeeds, the
/// buffer is such a one, as it was left, and the allocator is not asked. Otherwise the
/// allocator is asked, once: either it has no memory, which is the error with the code
/// -12, and the buffers stay as they are; or there is one buffer more, all zeroes.
pub proof fn law_get_recycles_or_allocates(
    pool: &mut AVBufferPool,
    buffer: Result<AVBufferRef, RsmpegError>,
    before: PoolState,
    after: PoolState,
)
    requires
        pool.wf(),
        pool@.open,
        call_ensures(AVBufferPool::get, (pool,), buffer),
        before == pool@,
        after == final(pool)@,
    ensures
        final(pool).wf(),
        after.open,
        after.buffer_size == before.buffer_size,
        forall|slot: int|
            0 <= slot < before.buffers.len() && (#[trigger] before.buffers[slot])->0.refs == 0
                ==> buffer is Ok && buffer->Ok_0@.slot < before.buffers.len(),
        (forall|slot: int|
            0 <= slot < before.buffers.len() ==> (#[trigger] before.buffers[slot])->0.refs > 0)
            ==> {
            &&& after.requests.asked == before.requests.asked + 1
            &&& buffer matches Ok(buffer) ==> buffer@.slot == before.buffers.len()
        },
        buffer matches Ok(buffer) ==> {
            &&& 0 <= buffer@.slot < after.buffers.len()
            &&& buffer@.size == before.buffer_size
            &&& 0 < buffer@.data
            &&& buffer@.data % 32 == 0
            &&& after.buffers[buffer@.slot] is Some
            &&& after.buffers[buffer@.slot]->0.refs == 1
            &&& after.buffers[buffer@.slot]->0.data == buffer@.data
            &&& after.buffers[buffer@.slot]->0.bytes.len() == buffer@.size
            &&& forall|other: int|
                0 <= other < before.buffers.len() && other != buffer@.slot
                    ==> #[trigger] after.buffers[other] == before.buffers[other]
        },
        buffer matches Ok(buffer) ==> buffer@.slot < before.buffers.len() ==> {
            &&& before.buffers[buffer@.slot] is Some
            &&& before.buffers[buffer@.slot]->0.refs == 0
            &&& before.buffers[buffer@.slot]->0.data == buffer@.data
            &&& before.buffers[buffer@.slot]->0.bytes == after.buffers[buffer@.slot]->0.bytes
            &&& after.buffers.len() == before.buffers.len()
            &&& buffer@.slot == before.idle[before.idle.len() - 1]
            &&& after.idle == before.idle.take(before.idle.len() - 1)
            &&& after.requests == before.requests
        },
        buffer matches Ok(buffer) ==> buffer@.slot >= before.buffers.len() ==> {
            &&& buffer@.slot == before.buffers.len()
            &&& after.buffers.len() == before.buffers.len() + 1
            &&& after.idle == before.idle
            &&& after.requests.asked == before.requests.asked + 1
            &&& after.requests.granted == before.requests.granted + 1
            &&& forall|i: int|
                0 <= i < buffer@.size ==> #[trigger] after.buffers[buffer@.slot]->0.bytes[i] == 0
        },
        buffer matches Err(RsmpegError::AVError(code)) ==> {
            &&& code == -12
            &&& after.buffers == before.buffers
            &&& after.idle == before.idle
            &&& after.requests.asked == before.requests.asked + 1
            &&& after.requests.granted == before.requests.granted
        },
{
    pool.lemma_wf();
    lemma_unheld_is_idle(before);
    if before.idle.len() > 0 {
        crate::pool_state::lemma_recycled_inv(before);
        assert(after.idle =~= before.idle.take(before.idle.len() - 1));
    }
    final(pool).lemma_wf();
    if let Ok(got) = buffer {
        assert(after.allocated(got@.slot));
    }
}

/// A buffer that nobody holds is idle, and an idle one is held by nobody.
proof fn lemma_unheld_is_idle(pool: PoolState)
    requires
        pool.inv(),
        pool.open,
    ensures
        forall|slot: int|
            0 <= slot < pool.buffers.len() && (#[trigger] pool.buffers[slot])->0.refs == 0
                ==> pool.idle.len() > 0,
        (forall|slot: int|
            0 <= slot < pool.buffers.len() ==> (#[trigger] pool.buffers[slot])->0.refs > 0)
            ==> pool.idle.len() == 0,
{
    assert forall|slot: int|
        0 <= slot < pool.buffers.len() && (#[trigger] pool.buffers[slot])->0.refs
            == 0 implies pool.idle.len() > 0 by {
        assert(pool.allocated(slot) && !pool.held(slot));
        assert(pool.idle.contains(slot as usize));
    }
    if pool.idle.len() > 0 {
        let slot = pool.idle[0] as int;
        assert(pool.allocated(slot) && !pool.held(slot));
        assert(pool.buffers[slot]->0.refs == 0);
    }
}

/// Handing out a buffer, if the allocator was asked beforehand: exactly if nobody
/// came back with one and there is no block either, there is none, which is the error
/// with the code -12, and the pool stays as it is. A block that was not needed is not
/// kept. Of the buffer and of the others, what holds of an acquisition holds here.
pub proof fn law_get_from_recycles_or_takes_the_block(
    pool: &mut AVBufferPool,
    allocated: Option<Block>,
    address: usize,
    buffer: Result<AVBufferRef, RsmpegError>,
    before: PoolState,
    after: PoolState,
)
    requires
        pool.wf(),
        pool@.open,
        call_ensures(AVBufferPool::get_from, (pool, allocated), buffer),
        allocated matches Some(block) ==> call_ensures(Block::data, (&block,), address),
        before == pool@,
        after == final(pool)@,
    ensures
        final(pool).wf(),
        after.open,
        after.buffer_size == before.buffer_size,
        after.requests == before.requests,
        buffer is Err <==> allocated is None && forall|slot: int|
            0 <= slot < before.buffers.len() ==> (#[trigger] before.buffers[slot])->0.refs > 0,
        buffer matches Err(RsmpegError::AVError(code)) ==> code == -12 && after == before,
        forall|slot: int|
            0 <= slot < before.buffers.len() && (#[trigger] before.buffers[slot])->0.refs == 0
                ==> buffer is Ok && buffer->Ok_0@.slot < before.buffers.len(),
        buffer matches Ok(buffer) ==> {
            &&& 0 <= buffer@.slot < after.buffers.len()
            &&& buffer@.size == before.buffer_size
            &&& 0 < buffer@.data
            &&& buffer@.data % 32 == 0
            &&& after.buffers[buffer@.slot] is Some
            &&& after.buffers[buffer@.slot]->0.refs == 1
            &&& after.buffers[buffer@.slot]->0.data == buffer@.data
            &&& after.buffers[buffer@.slot]->0.bytes.len() == buffer@.size
            &&& forall|other: int|
                0 <= other < before.buffers.len() && other != buffer@.slot
                    ==> #[trigger] after.buffers[other] == before.buffers[other]
        },
        buffer matches Ok(buffer) ==> buffer@.slot < before.buffers.len() ==> {
            &&& before.buffers[buffer@.slot] is Some
            &&& before.buffers[buffer@.slot]->0.refs == 0
            &&& before.buffers[buffer@.slot]->0.data == buffer@.data
            &&& before.buffers[buffer@.slot]->0.bytes == after.buffers[buffer@.slot]->0.bytes
            &&& after.buffers.len() == before.buffers.len()
            &&& buffer@.slot == before.idle[before.idle.len() - 1]
            &&& after.idle == before.idle.take(before.idle.len() - 1)
        },
        buffer matches Ok(buffer) ==> buffer@.slot >= before.buffers.len() ==> {
            &&& buffer@.slot == before.buffers.len()
            &&& buffer@.data == address
            &&& after.buffers.len() == before.buffers.len() + 1
            &&& after.idle == before.idle
            &&& forall|i: int|
                0 <= i < buffer@.size ==> #[trigger] after.buffers[buffer@.slot]->0.bytes[i] == 0
        },
{
    pool.lemma_wf();
    lemma_unheld_is_idle(before);
    if before.idle.len() > 0 {
        crate::pool_state::lemma_recycled_inv(before);
        assert(after.idle =~= before.idle.take(before.idle.len() - 1));
    }
    final(pool).lemma_wf();
    if let Ok(got) = buffer {
        assert(after.allocated(got@.slot));
    }
}

/// Whether an acquisition that has to allocate succeeds, the standard library says,
/// when it is asked for room for a buffer and its padding; more than FFmpeg allows is
/// refused.
pub proof fn law_memory_decides_on_acquisitions(
    pool: &mut AVBufferPool,
    size: usize,
    buffer: Result<AVBufferRef, RsmpegError>,
    before: PoolState,
)
    requires
        pool.wf(),
        pool@.open,
        call_ensures(AVBufferPool::buffer_size, (&*pool,), size),
        call_ensures(AVBufferPool::get, (pool,), buffer),
        before == pool@,
        forall|slot: int|
            0 <= slot < before.buffers.len() ==> (#[trigger] before.buffers[slot])->0.refs > 0,
    ensures
        size > 0x7fff_ffff ==> buffer is Err,
        size <= 0x7fff_ffff ==> exists|
            asked: &mut Vec<u8>,
            room: usize,
            reply: Result<(), std::collections::TryReserveError>,
        | #[trigger]
            call_ensures(Vec::<u8>::try_reserve, (asked, room), reply) && asked@.len() == 0 && room
                == size + 31 && (buffer is Ok <==> reply is Ok),
{
    pool.lemma_wf();
    lemma_unheld_is_idle(before);
    let block = choose|block: Option<Block>| #[trigger]
        Block::is_allocation(before.buffer_size, block) && (block is Some <==> buffer is Ok);
    Block::law_memory_decides(size, block);
}

/// Taking a reference gives one more to the same buffer, and counts it; nothing else
/// changes.
pub proof fn law_clone_counts_one_more(
    pool: &mut AVBufferPool,
    reference: AVBufferRef,
    clone: AVBufferRef,
    before: PoolState,
    after: PoolState,
)
    requires
        pool.wf(),
        reference@.belongs_to(pool@),
        call_ensures(AVBufferRef::clone_ref, (&reference, pool), clone),
        before == pool@,
        after == final(pool)@,
    ensures
        final(pool).wf(),
        clone@.slot == reference@.slot,
        clone@.data == reference@.data,
        clone@.size == reference@.size,
        after.open == before.open,
        after.buffer_size == before.buffer_size,
        after.idle == before.idle,
        after.requests == before.requests,
        after.buffers.len() == before.buffers.len(),
        after.buffers[reference@.slot] is Some,
        after.buffers[reference@.slot]->0.refs == before.buffers[reference@.slot]->0.refs + 1,
        after.buffers[reference@.slot]->0.data == before.buffers[reference@.slot]->0.data,
        after.buffers[reference@.slot]->0.bytes == before.buffers[reference@.slot]->0.bytes,
        forall|other: int|
            0 <= other < before.buffers.len() && other != reference@.slot
                ==> #[trigger] after.buffers[other] == before.buffers[other],
{
}

/// Giving a reference up counts one less. Without a reference left, the buffer of an
/// open pool is the next one to be handed out, as it was left; that of a closed pool
/// is freed. Nothing else changes.
pub proof fn law_unref_counts_one_less(
    pool: &mut AVBufferPool,
    reference: AVBufferRef,
    before: PoolState,
    after: PoolState,
)
    requires
        pool.wf(),
        reference@.belongs_to(pool@),
        call_ensures(AVBufferRef::unref, (reference, pool), ()),
        before == pool@,
        after == final(pool)@,
    ensures
        final(pool).wf(),
        after.open == before.open,
        after.buffer_size == before.buffer_size,
        after.requests == before.requests,
        after.buffers.len() == before.buffers.len(),
        before.buffers[reference@.slot]->0.refs > 0,
        before.buffers[reference@.slot]->0.refs > 1 || before.open ==> {
            &&& after.buffers[reference@.slot] is Some
            &&& after.buffers[reference@.slot]->0.refs == before.buffers[reference@.slot]->0.refs
                - 1
            &&& after.buffers[reference@.slot]->0.data == before.buffers[reference@.slot]->0.data
            &&& after.buffers[reference@.slot]->0.bytes == before.buffers[reference@.slot]->0.bytes
        },
        before.buffers[reference@.slot]->0.refs > 1 || !before.open ==> after.idle == before.idle,
        before.buffers[reference@.slot]->0.refs == 1 && before.open ==> {
            &&& after.idle.len() == before.idle.len() + 1
            &&& after.idle[before.idle.len() as int] == reference@.slot
            &&& forall|k: int|
                0 <= k < before.idle.len() ==> #[trigger] after.idle[k] == before.idle[k]
        },
        before.buffers[reference@.slot]->0.refs == 1 && !before.open
            ==> after.buffers[reference@.slot] is None,
        forall|other: int|
            0 <= other < before.buffers.len() && other != reference@.slot
                ==> #[trigger] after.buffers[other] == before.buffers[other],
{
    pool.lemma_wf();
}

/// A write replaces the bytes of one buffer from `at` on, one for one, and nothing
/// else.
pub proof fn law_write_replaces_the_bytes(
    pool: &mut AVBufferPool,
    reference: AVBufferRef,
    at: usize,
    bytes: &[u8],
    before: PoolState,
    after: PoolState,
)
    requires
        pool.wf(),
        reference@.belongs_to(pool@),
        at + bytes@.len() <= reference@.size,
        call_ensures(AVBufferRef::write, (&reference, pool, at, bytes), ()),
        before == pool@,
        after == final(pool)@,
    ensures
        final(pool).wf(),
        after.open == before.open,
        after.buffer_size == before.buffer_size,
        after.idle == before.idle,
        after.requests == before.requests,
        after.buffers.len() == before.buffers.len(),
        after.buffers[reference@.slot] is Some,
        after.buffers[reference@.slot]->0.refs == before.buffers[reference@.slot]->0.refs,
        after.buffers[reference@.slot]->0.data == before.buffers[reference@.slot]->0.data,
        after.buffers[reference@.slot]->0.bytes.len() == before.buffer_size,
        forall|i: int|
            0 <= i < bytes@.len() ==> after.buffers[reference@.slot]->0.bytes[at + i]
                == #[trigger] bytes@[i],
        forall|i: int|
            0 <= i < before.buffer_size && !(at <= i < at + bytes@.len())
                ==> #[trigger] after.buffers[reference@.slot]->0.bytes[i]
                == before.buffers[reference@.slot]->0.bytes[i],
        forall|other: int|
            0 <= other < before.buffers.len() && other != reference@.slot
                ==> #[trigger] after.buffers[other] == before.buffers[other],
{
    pool.lemma_wf();
    assert(before.allocated(reference@.slot));
}

/// Closing a pool frees the buffers that nobody holds, and those only: a held buffer
/// stays as it is.
pub proof fn law_uninit_frees_what_is_not_held(
    pool: &mut AVBufferPool,
    before: PoolState,
    after: PoolState,
)
    requires
        pool.wf(),
        pool@.open,
        call_ensures(AVBufferPool::uninit, (pool,), ()),
        before == pool@,
        after == final(pool)@,
    ensures
        final(pool).wf(),
        !after.open,
        after.buffer_size == before.buffer_size,
        after.idle.len() == 0,
        after.requests == before.requests,
        after.buffers.len() == before.buffers.len(),
        forall|slot: int|
            0 <= slot < before.buffers.len() && before.buffers[slot]->0.refs > 0
                ==> #[trigger] after.buffers[slot] == before.buffers[slot]
                && after.buffers[slot] is Some,
        forall|slot: int|
            0 <= slot < before.buffers.len() && before.buffers[slot]->0.refs == 0
                ==> #[trigger] after.buffers[slot] is None,
{
    pool.lemma_wf();
    assert forall|slot: int| 0 <= slot < before.buffers.len() implies before.buffers[slot] is Some
        && #[trigger] after.buffers[slot] == (if before.buffers[slot]->0.refs > 0 {
        before.buffers[slot]
    } else {
        None
    }) by {
        assert(before.allocated(slot));
    }
}

/// What a reference and its pool say of a buffer: its size and its address, how many
/// references there are, and its bytes, which are as many as its size. It is writable
/// exactly if there is one reference.
pub proof fn law_what_is_seen_of_a_buffer(
    pool: AVBufferPool,
    reference: AVBufferRef,
    pool_size: usize,
    size: usize,
    data: usize,
    count: usize,
    writable: bool,
    bytes: &[u8],
)
    requires
        pool.wf(),
        reference@.belongs_to(pool@),
        call_ensures(AVBufferPool::buffer_size, (&pool,), pool_size),
        call_ensures(AVBufferRef::size, (&reference,), size),
        call_ensures(AVBufferRef::data, (&reference,), data),
        call_ensures(AVBufferRef::get_ref_count, (&reference, &pool), count),
        call_ensures(AVBufferRef::is_writable, (&reference, &pool), writable),
        call_ensures(AVBufferRef::as_slice, (&reference, &pool), bytes),
    ensures
        size == pool_size,
        bytes@.len() == size,
        count > 0,
        writable <==> count == 1,
        0 < data,
        data % 32 == 0,
        pool_size == pool@.buffer_size,
        0 <= reference@.slot < pool@.buffers.len(),
        pool@.buffers[reference@.slot] is Some,
        count == pool@.buffers[reference@.slot]->0.refs,
        data == pool@.buffers[reference@.slot]->0.data,
        bytes@ == pool@.buffers[reference@.slot]->0.bytes,
{
    pool.lemma_wf();
    assert(pool@.allocated(reference@.slot));
}

/// Every buffer of a pool has the size that the pool was created with, however many
/// were acquired before: the first acquisition has it, and each keeps the pool's size
/// for the next one. It comes with one reference, and can be written.
pub proof fn law_acquired_buffer_has_the_size_of_the_pool(
    pool: &mut AVBufferPool,
    size: usize,
    buffer: AVBufferRef,
    after: AVBufferPool,
    size_after: usize,
    buffer_size: usize,
    data: usize,
    count: usize,
    writable: bool,
    bytes: &[u8],
)
    requires
        pool.wf(),
        pool@.open,
        call_ensures(AVBufferPool::buffer_size, (&*pool,), size),
        call_ensures(AVBufferPool::get, (pool,), Ok::<AVBufferRef, RsmpegError>(buffer)),
        after == *final(pool),
        call_ensures(AVBufferPool::buffer_size, (&after,), size_after),
        call_ensures(AVBufferRef::size, (&buffer,), buffer_size),
        call_ensures(AVBufferRef::data, (&buffer,), data),
        call_ensures(AVBufferRef::get_ref_count, (&buffer, &after), count),
        call_ensures(AVBufferRef::is_writable, (&buffer, &after), writable),
        call_ensures(AVBufferRef::as_slice, (&buffer, &after), bytes),
    ensures
        size_after == size,
        buffer_size == size,
        bytes@.len() == size,
        count == 1,
        writable,
        0 < data,
        data % 32 == 0,
{
    law_get_recycles_or_allocates(pool, Ok(buffer), pool@, after@);
}

/// The first buffer of a new pool has the size that was asked for, and is all zeroes.
pub proof fn law_first_buffer_has_the_requested_size(
    requested: usize,
    created: AVBufferPool,
    pool: &mut AVBufferPool,
    buffer: AVBufferRef,
    size: usize,
    bytes: &[u8],
)
    requires
        call_ensures(AVBufferPool::new, (requested,), Ok::<AVBufferPool, RsmpegError>(created)),
        *pool == created,
        call_ensures(AVBufferPool::get, (pool,), Ok::<AVBufferRef, RsmpegError>(buffer)),
        call_ensures(AVBufferRef::size, (&buffer,), size),
        call_ensures(AVBufferRef::as_slice, (&buffer, &*final(pool)), bytes),
    ensures
        size == requested,
        bytes@.len() == requested,
        forall|i: int| 0 <= i < requested ==> #[trigger] bytes@[i] == 0,
{
    law_get_recycles_or_allocates(pool, Ok(buffer), pool@, final(pool)@);
}

/// A buffer whose last reference is given up to an open pool is what the next
/// acquisition gives: the same memory, holding what it held, with one reference, and
/// the allocator is not asked. And so on for ever: the pool is still open.
pub proof fn law_given_up_buffer_comes_again(
    giving: &mut AVBufferPool,
    given: AVBufferRef,
    count: usize,
    data: usize,
    bytes: &[u8],
    getting: &mut AVBufferPool,
    buffer: Result<AVBufferRef, RsmpegError>,
)
    requires
        giving.wf(),
        giving@.open,
        given@.belongs_to(giving@),
        call_ensures(AVBufferRef::get_ref_count, (&given, &*giving), count),
        count == 1,
        call_ensures(AVBufferRef::data, (&given,), data),
        call_ensures(AVBufferRef::as_slice, (&given, &*giving), bytes),
        call_ensures(AVBufferRef::unref, (given, giving), ()),
        *getting == *final(giving),
        call_ensures(AVBufferPool::get, (getting,), buffer),
    ensures
        buffer is Ok,
        forall|again: usize| #[trigger]
            call_ensures(AVBufferRef::data, (&buffer->Ok_0,), again) ==> again == data,
        forall|found: &[u8]| #[trigger]
            call_ensures(AVBufferRef::as_slice, (&buffer->Ok_0, &*final(getting)), found)
                ==> found@ == bytes@,
        forall|now: usize| #[trigger]
            call_ensures(AVBufferRef::get_ref_count, (&buffer->Ok_0, &*final(getting)), now) ==> now
                == 1,
        final(getting)@.open,
        final(getting)@.requests == old(giving)@.requests,
        final(getting)@.buffers == old(giving)@.buffers,
        final(getting)@.idle == old(giving)@.idle,
{
    let (before, between, after) = (giving@, getting@, final(getting)@);
    law_unref_counts_one_less(giving, given, before, between);
    assert(between.buffers[given@.slot]->0.refs == 0);
    law_get_recycles_or_allocates(getting, buffer, between, after);
    assert(between.idle[between.idle.len() - 1] == given@.slot);
    assert forall|slot: int| 0 <= slot < before.buffers.len() implies #[trigger] after.buffers[slot]
        == before.buffers[slot] by {
        if slot != given@.slot {
            assert(between.buffers[slot] == before.buffers[slot]);
        }
    }
    assert(after.buffers =~= before.buffers);
    assert(after.idle =~= before.idle);
}

/// A clone counts one more while it lives, the buffer is then not writable, and giving
/// the clone up restores the pool: the same count, and the buffer as it was.
pub proof fn law_clone_is_counted_while_it_lives(
    taking: &mut AVBufferPool,
    reference: AVBufferRef,
    count: usize,
    clone: AVBufferRef,
    shared: usize,
    writable: bool,
    giving: &mut AVBufferPool,
    restored: usize,
)
    requires
        taking.wf(),
        reference@.belongs_to(taking@),
        call_ensures(AVBufferRef::get_ref_count, (&reference, &*taking), count),
        call_ensures(AVBufferRef::clone_ref, (&reference, taking), clone),
        *giving == *final(taking),
        call_ensures(AVBufferRef::get_ref_count, (&reference, &*giving), shared),
        call_ensures(AVBufferRef::is_writable, (&reference, &*giving), writable),
        call_ensures(AVBufferRef::unref, (clone, giving), ()),
        call_ensures(AVBufferRef::get_ref_count, (&reference, &*final(giving)), restored),
    ensures
        shared == count + 1,
        !writable,
        restored == count,
        final(giving)@ == old(taking)@,
{
    let (before, between, after) = (taking@, giving@, final(giving)@);
    law_clone_counts_one_more(taking, reference, clone, before, between);
    law_unref_counts_one_less(giving, clone, between, after);
    assert forall|slot: int| 0 <= slot < before.buffers.len() implies #[trigger] after.buffers[slot]
        == before.buffers[slot] by {
        if slot != reference@.slot {
            assert(between.buffers[slot] == before.buffers[slot]);
        }
    }
    assert(after.buffers =~= before.buffers);
    assert(after =~= before);
}

/// What is written into a buffer is what is read from it, through every reference to
/// it; the other bytes, and those of every other buffer, are read as before.
pub proof fn law_written_bytes_are_read_back(
    pool: &mut AVBufferPool,
    writer: AVBufferRef,
    at: usize,
    bytes: &[u8],
    reader: AVBufferRef,
    found: &[u8],
    after: AVBufferPool,
    found_after: &[u8],
)
    requires
        pool.wf(),
        writer@.belongs_to(pool@),
        reader@.belongs_to(pool@),
        at + bytes@.len() <= writer@.size,
        call_ensures(AVBufferRef::as_slice, (&reader, &*pool), found),
        call_ensures(AVBufferRef::write, (&writer, pool, at, bytes), ()),
        after == *final(pool),
        call_ensures(AVBufferRef::as_slice, (&reader, &after), found_after),
    ensures
        reader@.slot != writer@.slot ==> found_after@ == found@,
        reader@.slot == writer@.slot ==> {
            &&& found_after@.len() == found@.len()
            &&& forall|i: int|
                0 <= i < bytes@.len() ==> found_after@[at + i] == #[trigger] bytes@[i]
            &&& forall|i: int|
                0 <= i < found@.len() && !(at <= i < at + bytes@.len())
                    ==> #[trigger] found_after@[i] == found@[i]
        },
{
    pool.lemma_wf();
    law_write_replaces_the_bytes(pool, writer, at, bytes, pool@, after@);
    assert(pool@.allocated(reader@.slot));
    assert(pool@.buffer(reader@.slot) == pool@.buffers[reader@.slot]->0);
}

/// A buffer that is held when its pool is closed is seen as before: the same count,
/// the same bytes.
pub proof fn law_closing_is_not_seen_by_holders(
    pool: &mut AVBufferPool,
    reference: AVBufferRef,
    count: usize,
    bytes: &[u8],
    after: AVBufferPool,
    count_after: usize,
    bytes_after: &[u8],
)
    requires
        pool.wf(),
        pool@.open,
        reference@.belongs_to(pool@),
        call_ensures(AVBufferRef::get_ref_count, (&reference, &*pool), count),
        call_ensures(AVBufferRef::as_slice, (&reference, &*pool), bytes),
        call_ensures(AVBufferPool::uninit, (pool,), ()),
        after == *final(pool),
        call_ensures(AVBufferRef::get_ref_count, (&reference, &after), count_after),
        call_ensures(AVBufferRef::as_slice, (&reference, &after), bytes_after),
    ensures
        count_after == count,
        bytes_after@ == bytes@,
        reference@.belongs_to(after@),
{
    pool.lemma_wf();
    law_uninit_frees_what_is_not_held(pool, pool@, after@);
    assert(after@.buffers[reference@.slot] == pool@.buffers[reference@.slot]);
}

/// Two references that are held at the same time, one of them just acquired, are to
/// different buffers, and the acquisition is not seen by the other one.
pub proof fn law_acquisition_is_not_seen_by_holders(
    pool: &mut AVBufferPool,
    held: AVBufferRef,
    count: usize,
    bytes: &[u8],
    buffer: Result<AVBufferRef, RsmpegError>,
    after: AVBufferPool,
    count_after: usize,
    bytes_after: &[u8],
)
    requires
        pool.wf(),
        pool@.open,
        held@.belongs_to(pool@),
        call_ensures(AVBufferRef::get_ref_count, (&held, &*pool), count),
        call_ensures(AVBufferRef::as_slice, (&held, &*pool), bytes),
        call_ensures(AVBufferPool::get, (pool,), buffer),
        after == *final(pool),
        call_ensures(AVBufferRef::get_ref_count, (&held, &after), count_after),
        call_ensures(AVBufferRef::as_slice, (&held, &after), bytes_after),
    ensures
        buffer matches Ok(buffer) ==> buffer@.slot != held@.slot,
        count_after == count,
        bytes_after@ == bytes@,
        held@.belongs_to(after@),
{
    law_get_recycles_or_allocates(pool, buffer, pool@, after@);
    assert(after@.buffers[held@.slot] == pool@.buffers[held@.slot]);
}

/// An acquisition is a step of the pool's history, so that what holds of histories
/// holds of calls.
pub proof fn law_acquisition_is_a_step(
    pool: &mut AVBufferPool,
    buffer: Result<AVBufferRef, RsmpegError>,
)
    requires
        pool.wf(),
        pool@.open,
        call_ensures(AVBufferPool::get, (pool,), buffer),
    ensures
        buffer matches Ok(buffer) ==> (PoolStep::Get { data: buffer@.data }).enabled(old(pool)@)
            && final(pool)@ == (PoolStep::Get { data: buffer@.data }).after(old(pool)@),
        buffer is Err ==> PoolStep::Refused.enabled(old(pool)@) && final(pool)@
            == PoolStep::Refused.after(old(pool)@),
{
    law_get_recycles_or_allocates(pool, buffer, pool@, final(pool)@);
    final(pool).lemma_wf();
}

/// Taking a reference is a step of the pool's history.
pub proof fn law_clone_is_a_step(
    pool: &mut AVBufferPool,
    reference: AVBufferRef,
    clone: AVBufferRef,
)
    requires
        pool.wf(),
        reference@.belongs_to(pool@),
        call_ensures(AVBufferRef::clone_ref, (&reference, pool), clone),
    ensures
        (PoolStep::Clone { slot: reference@.slot }).enabled(old(pool)@),
        final(pool)@ == (PoolStep::Clone { slot: reference@.slot }).after(old(pool)@),
{
}

/// Giving a reference up is a step of the pool's history.
pub proof fn law_unref_is_a_step(pool: &mut AVBufferPool, reference: AVBufferRef)
    requires
        pool.wf(),
        reference@.belongs_to(pool@),
        call_ensures(AVBufferRef::unref, (reference, pool), ()),
    ensures
        (PoolStep::Unref { slot: reference@.slot }).enabled(old(pool)@),
        final(pool)@ == (PoolStep::Unref { slot: reference@.slot }).after(old(pool)@),
{
}

/// A write is a step of the pool's history.
pub proof fn law_write_is_a_step(
    pool: &mut AVBufferPool,
    reference: AVBufferRef,
    at: usize,
    bytes: &[u8],
    step: PoolStep,
)
    requires
        pool.wf(),
        reference@.belongs_to(pool@),
        pool@.buffers[reference@.slot]->0.refs == 1,
        call_ensures(AVBufferRef::write, (&reference, pool, at, bytes), ()),
        step == (PoolStep::Write { slot: reference@.slot, at: at as int, patch: bytes@ }),
    ensures
        step.enabled(old(pool)@),
        final(pool)@ == step.after(old(pool)@),
{
}

/// Closing a pool is a step of its history.
pub proof fn law_uninit_is_a_step(pool: &mut AVBufferPool)
    requires
        pool.wf(),
        pool@.open,
        call_ensures(AVBufferPool::uninit, (pool,), ()),
    ensures
        PoolStep::Uninit.enabled(old(pool)@),
        final(pool)@ == PoolStep::Uninit.after(old(pool)@),
{
}

} // verus!
