//! What blocks of memory have to do with what was asked for and written.
//!
//! A law speaks of calls of the library: `call_ensures(f, arguments, result)` says
//! that `f` was called with these arguments and returned this result. A parameter
//! that is a mutable reference stands for what it refers to before the call, and
//! inside `final(..)` after it.

use crate::block::{Block, Requests};
use vstd::prelude::*;

verus! {

/// A block starts at the first address in its storage that is a multiple of 32, and
/// holds the bytes of the storage from there on.
pub proof fn law_block_starts_at_the_first_aligned_address(
    storage: Vec<u8>,
    size: usize,
    start: usize,
    block: Block,
    data: usize,
    bytes: &[u8],
)
    requires
        0 < start,
        storage@.len() == size + 31,
        start + storage@.len() <= usize::MAX,
        call_ensures(Block::placed, (storage, size, start), block),
        call_ensures(Block::data, (&block,), data),
        call_ensures(Block::as_slice, (&block,), bytes),
    ensures
        data % 32 == 0,
        start <= data < start + 32,
        bytes@.len() == size,
        forall|i: int| 0 <= i < size ==> #[trigger] bytes@[i] == storage@[data - start + i],
{
    block.lemma_wf();
}

/// There is a block exactly if room was reserved for it. It holds `size` bytes, all
/// of them zero, and its address is a multiple of 32, and not zero.
pub proof fn law_reserved_block_is_zero_filled(
    size: usize,
    reserved: Option<Vec<u8>>,
    block: Option<Block>,
)
    requires
        call_ensures(Block::from_reserved, (size, reserved), block),
    ensures
        block is Some <==> reserved is Some,
        block matches Some(block) ==> forall|bytes: &[u8]| #[trigger]
            call_ensures(Block::as_slice, (&block,), bytes) ==> bytes@.len() == size && forall|
                i: int,
            | 0 <= i < size ==> #[trigger] bytes@[i] == 0,
        block matches Some(block) ==> forall|data: usize| #[trigger]
            call_ensures(Block::data, (&block,), data) ==> 0 < data && data % 32 == 0,
{
    if let Some(made) = block {
        made.lemma_wf();
    }
}

/// Every request is counted as asked, and as granted if there is a block. The block
/// holds `size` bytes, all of them zero, and its address is a multiple of 32, and not
/// zero. More than FFmpeg allows is never granted.
pub proof fn law_requested_block_is_zero_filled(
    requests: &mut Requests,
    size: usize,
    block: Option<Block>,
)
    requires
        call_ensures(Requests::alloc_zeroed, (requests, size), block),
    ensures
        final(requests)@.asked == old(requests)@.asked + 1,
        block is Some ==> final(requests)@.granted == old(requests)@.granted + 1,
        block is None ==> final(requests)@.granted == old(requests)@.granted,
        size > 0x7fff_ffff ==> block is None,
        block matches Some(block) ==> forall|bytes: &[u8]| #[trigger]
            call_ensures(Block::as_slice, (&block,), bytes) ==> bytes@.len() == size && forall|
                i: int,
            | 0 <= i < size ==> #[trigger] bytes@[i] == 0,
        block matches Some(block) ==> forall|data: usize| #[trigger]
            call_ensures(Block::data, (&block,), data) ==> 0 < data && data % 32 == 0,
{
    if let Some(made) = block {
        made.lemma_wf();
    }
}

/// A request is granted exactly if the standard library has room for the bytes and
/// their padding, unless they are more than FFmpeg allows.
pub proof fn law_memory_decides_on_requests(
    requests: &mut Requests,
    size: usize,
    block: Option<Block>,
)
    requires
        call_ensures(Requests::alloc_zeroed, (requests, size), block),
        size <= 0x7fff_ffff,
    ensures
        exists|
            asked: &mut Vec<u8>,
            room: usize,
            reply: Result<(), std::collections::TryReserveError>,
        | #[trigger]
            call_ensures(Vec::<u8>::try_reserve, (asked, room), reply) && asked@.len() == 0 && room
                == size + 31 && (block is Some <==> reply is Ok),
{
    Block::law_memory_decides(size, block);
}

/// Before the first request, none is counted.
pub proof fn law_nothing_was_requested_yet(requests: Requests)
    requires
        call_ensures(Requests::new, (), requests),
    ensures
        requests@.asked == 0,
        requests@.granted == 0,
{
}

/// A write replaces the bytes from `at` on, one for one, and no other: what is read
/// there afterwards is what was written, and the block stays where it is.
pub proof fn law_write_is_read_back(
    block: &mut Block,
    before: &[u8],
    data: usize,
    at: usize,
    bytes: &[u8],
    after: &[u8],
    data_after: usize,
)
    requires
        block.wf(),
        at + bytes@.len() <= before@.len(),
        call_ensures(Block::as_slice, (&*block,), before),
        call_ensures(Block::data, (&*block,), data),
        call_ensures(Block::write, (block, at, bytes), ()),
        call_ensures(Block::as_slice, (&*final(block),), after),
        call_ensures(Block::data, (&*final(block),), data_after),
    ensures
        after@.len() == before@.len(),
        forall|i: int| 0 <= i < bytes@.len() ==> after@[at + i] == #[trigger] bytes@[i],
        forall|i: int|
            0 <= i < before@.len() && !(at <= i < at + bytes@.len()) ==> #[trigger] after@[i]
                == before@[i],
        data_after == data,
{
}

} // verus!
