//! Aligned, zero-filled blocks of memory.

use vstd::prelude::*;

verus! {

/// Every block starts at an address that is a multiple of this.
pub const ALIGNMENT: usize = 32;

/// No block is larger than this, which is also FFmpeg's default limit: the largest
/// C `int`.
pub const MAX_SIZE: usize = 0x7fff_ffff;

/// A block of memory: `size` bytes of `storage`, starting at `offset`, which is
/// where the aligned address `data` lies.
pub struct Block {
    storage: Vec<u8>,
    offset: usize,
    size: usize,
    data: usize,
}

impl View for Block {
    type V = Seq<u8>;

    /// The bytes of the block.
    closed spec fn view(&self) -> Seq<u8> {
        self.storage@.subrange(self.offset as int, self.offset + self.size)
    }
}

/// `size` zero bytes.
pub open spec fn zeros(size: nat) -> Seq<u8> {
    Seq::new(size, |i: int| 0u8)
}

/// `Vec::as_mut_ptr`, as a number, beside the vector itself, whose bytes stay as
/// they are. A vector's allocation does not start at zero, and it ends within the
/// address space, as the standard library documents for every allocation. Where in
/// memory it lies is up to the allocator, and nothing is said of it.
#[verifier::external_body]
fn located(storage: Vec<u8>) -> (found: (Vec<u8>, usize))
    requires
        storage@.len() > 0,
    ensures
        found.0@ == storage@,
        0 < found.1,
        found.1 + storage@.len() <= usize::MAX,
{
    let mut storage = storage;
    let start: usize = storage.as_mut_ptr() as usize;
    (storage, start)
}

impl Block {
    /// The parts of the block fit together.
    pub closed spec fn wf(self) -> bool {
        &&& self.offset + self.size <= self.storage.len()
        &&& 0 < self.data
        &&& self.data % ALIGNMENT == 0
    }

    /// The address of the first byte.
    pub closed spec fn address(self) -> usize {
        self.data
    }

    /// The address of a block is aligned, and not zero.
    pub proof fn lemma_wf(self)
        requires
            self.wf(),
        ensures
            0 < self.address(),
            self.address() % ALIGNMENT == 0,
    {
    }

    /// `start` is where `storage` was found to lie.
    pub closed spec fn is_address(storage: Vec<u8>, start: usize) -> bool {
        exists|asked: Vec<u8>| #[trigger] call_ensures(located, (asked,), (storage, start))
    }

    /// The block is made of `storage`, and its address is that of its first byte if
    /// `storage` lies at `start`. No more than the padding is skipped.
    pub closed spec fn lies_in(self, storage: Vec<u8>, start: usize) -> bool {
        &&& self.storage == storage
        &&& self.data == start + self.offset
        &&& self.offset < ALIGNMENT
    }

    /// The block occupies the same part of a storage of the same length at the same
    /// address. This is what writing keeps.
    pub closed spec fn same_place(self, other: Block) -> bool {
        &&& self.storage@.len() == other.storage@.len()
        &&& self.offset == other.offset
        &&& self.size == other.size
        &&& self.data == other.data
    }

    /// The block lies where the allocator placed its storage: what it was before
    /// anything was written into it is a part of a storage, at the address at which
    /// that storage was found.
    pub open spec fn is_placed(self) -> bool {
        exists|unwritten: Block, storage: Vec<u8>, start: usize|
            self.same_place(unwritten) && #[trigger] Block::is_address(storage, start)
                && #[trigger] unwritten.lies_in(storage, start)
    }

    /// The block lies in `room`, the very vector that was reserved for it, after it
    /// was filled.
    pub closed spec fn is_made_of(self, room: Vec<u8>) -> bool {
        exists|filled: Vec<u8>, storage: Vec<u8>, start: usize|
            call_ensures(
                Block::zero_filled,
                (room, (self.size + ALIGNMENT - 1) as usize),
                filled,
            ) && #[trigger] call_ensures(located, (filled,), (storage, start))
                && self.lies_in(storage, start)
    }

    /// Writing does not move a block.
    pub proof fn lemma_written_is_placed(self, before: Block)
        requires
            before.is_placed(),
            self.same_place(before),
        ensures
            self.is_placed(),
    {
        let (unwritten, storage, start) = choose|
            unwritten: Block,
            storage: Vec<u8>,
            start: usize,
        |
            before.same_place(unwritten) && #[trigger] Block::is_address(storage, start)
                && #[trigger] unwritten.lies_in(storage, start);
        assert(self.same_place(unwritten) && Block::is_address(storage, start)
            && unwritten.lies_in(storage, start));
    }

    /// Asks the allocator for room for `capacity` bytes, which holds none yet.
    /// Whether there is memory, the allocator says. The room is the vector that it
    /// was reserved in.
    pub fn reserve(capacity: usize) -> (reserved: Option<Vec<u8>>)
        ensures
            reserved matches Some(storage) ==> storage@.len() == 0,
            exists|asked: &mut Vec<u8>, reply: Result<(), std::collections::TryReserveError>|
                #[trigger] call_ensures(Vec::<u8>::try_reserve, (asked, capacity), reply)
                    && asked@.len() == 0 && (reserved is Some <==> reply is Ok) && (
                reserved matches Some(storage) ==> storage == *final(asked)),
    {
        let mut storage: Vec<u8> = Vec::new();
        match storage.try_reserve(capacity) {
            Ok(()) => Some(storage),
            Err(_) => None,
        }
    }

    /// `reserved` is an answer to a request for room for `capacity` bytes.
    pub open spec fn is_reservation(capacity: int, reserved: Option<Vec<u8>>) -> bool {
        call_ensures(Block::reserve, (capacity as usize,), reserved)
    }

    /// Fills the vector with `len` zero bytes, in the room that it has.
    fn zero_filled(storage: Vec<u8>, len: usize) -> (filled: Vec<u8>)
        requires
            storage@.len() == 0,
        ensures
            filled@ == zeros(len as nat),
            exists|asked: &mut Vec<u8>| #[trigger]
                call_ensures(Vec::<u8>::resize, (asked, len, 0u8), ()) && *asked == storage
                    && *final(asked) == filled,
    {
        let mut filled = storage;
        filled.resize(len, 0);
        assert(filled@ =~= zeros(len as nat));
        filled
    }

    /// Cuts a block of `size` bytes out of `storage`, which lies at `start`: the
    /// first bytes from an aligned address on.
    pub fn placed(storage: Vec<u8>, size: usize, start: usize) -> (block: Block)
        requires
            0 < start,
            storage@.len() == size + ALIGNMENT - 1,
            start + storage@.len() <= usize::MAX,
        ensures
            block.wf(),
            block.lies_in(storage, start),
            start <= block.address() < start + ALIGNMENT,
            block@ == storage@.subrange(
                block.address() - start,
                block.address() - start + size,
            ),
    {
        let offset: usize = (ALIGNMENT - start % ALIGNMENT) % ALIGNMENT;
        assert(storage.len() == size + ALIGNMENT - 1);
        Block { storage, offset, size, data: start + offset }
    }

    /// Makes a block of `size` zero bytes in the room that was reserved for it, if
    /// any was.
    pub fn from_reserved(size: usize, reserved: Option<Vec<u8>>) -> (block: Option<Block>)
        requires
            size + ALIGNMENT - 1 <= usize::MAX,
            reserved matches Some(storage) ==> storage@.len() == 0,
        ensures
            block is Some <==> reserved is Some,
            block matches Some(block) ==> block.wf() && block@ == zeros(size as nat),
            block matches Some(block) ==> block.is_made_of(reserved->0) && block.is_placed(),
    {
        match reserved {
            None => None,
            Some(room) => {
                let filled = Block::zero_filled(room, size + (ALIGNMENT - 1));
                let (storage, start) = located(filled);
                let block = Block::placed(storage, size, start);
                proof {
                    assert(Block::is_address(storage, start));
                    assert(block.same_place(block) && block.lies_in(storage, start));
                    assert(block@ =~= zeros(size as nat));
                    assert(block.size == size) by {
                        assert(block@.len() == zeros(size as nat).len());
                    }
                }
                Some(block)
            },
        }
    }

    /// Allocates a block of `size` zero bytes, or returns `None` when there is no
    /// memory for it: either it is too large, or the allocator has no room for it
    /// and its padding.
    fn alloc_zeroed(size: usize) -> (block: Option<Block>)
        ensures
            block matches Some(block) ==> block.wf() && block@ == zeros(size as nat),
            block matches Some(block) ==> block.is_placed(),
            size > MAX_SIZE ==> block is None,
            size <= MAX_SIZE ==> exists|reserved: Option<Vec<u8>>| #[trigger]
                Block::is_reservation(size + ALIGNMENT - 1, reserved) && (block is Some
                    <==> reserved is Some) && (block matches Some(block) ==> block.is_made_of(
                    reserved->0,
                )),
    {
        if size > MAX_SIZE {
            return None;
        }
        let reserved = Block::reserve(size + (ALIGNMENT - 1));
        assert(Block::is_reservation(size + ALIGNMENT - 1, reserved));
        Block::from_reserved(size, reserved)
    }

    /// `block` is an answer to a request for a block of `size` bytes.
    pub closed spec fn is_allocation(size: nat, block: Option<Block>) -> bool {
        call_ensures(Block::alloc_zeroed, (size as usize,), block)
    }

    /// A request for `size` zero bytes is answered as the standard library answers one
    /// for room for them and their padding, unless they are more than FFmpeg allows:
    /// then it is refused.
    pub proof fn law_memory_decides(size: usize, block: Option<Block>)
        requires
            Block::is_allocation(size as nat, block),
        ensures
            size > 0x7fff_ffff ==> block is None,
            size <= 0x7fff_ffff ==> exists|
                asked: &mut Vec<u8>,
                room: usize,
                reply: Result<(), std::collections::TryReserveError>,
            | #[trigger]
                call_ensures(Vec::<u8>::try_reserve, (asked, room), reply) && asked@.len() == 0
                    && room == size + 31 && (block is Some <==> reply is Ok),
    {
        if size <= MAX_SIZE {
            let reserved = choose|reserved: Option<Vec<u8>>| #[trigger]
                Block::is_reservation(size + ALIGNMENT - 1, reserved) && (block is Some
                    <==> reserved is Some);
            assert(call_ensures(Block::reserve, ((size + ALIGNMENT - 1) as usize,), reserved));
        }
    }

    /// A block lies in a storage, less than 32 bytes from the address at which that
    /// storage was found: its own address is that of its first byte, and none of its
    /// bytes lies outside.
    pub proof fn law_address_is_in_the_storage(self, data: usize)
        requires
            self.wf(),
            self.is_placed(),
            call_ensures(Block::data, (&self,), data),
        ensures
            exists|storage: Vec<u8>, start: usize| #[trigger]
                Block::is_address(storage, start) && start <= data < start + 32 && data - start
                    + self@.len() <= storage@.len(),
    {
        let (unwritten, storage, start) = choose|
            unwritten: Block,
            storage: Vec<u8>,
            start: usize,
        |
            self.same_place(unwritten) && #[trigger] Block::is_address(storage, start)
                && #[trigger] unwritten.lies_in(storage, start);
        assert(self.storage.len() == self.storage@.len());
        assert(Block::is_address(storage, start) && start <= data < start + 32 && data - start
            + self@.len() <= storage@.len());
    }

    /// A block that was made in reserved room holds the bytes of the storage that lie
    /// at its address.
    pub proof fn law_bytes_are_at_the_address(
        size: usize,
        reserved: Option<Vec<u8>>,
        block: Block,
        data: usize,
        bytes: &[u8],
    )
        requires
            size + 31 <= usize::MAX,
            call_ensures(Block::from_reserved, (size, reserved), Some(block)),
            call_ensures(Block::data, (&block,), data),
            call_ensures(Block::as_slice, (&block,), bytes),
        ensures
            exists|storage: Vec<u8>, start: usize| #[trigger]
                Block::is_address(storage, start) && start <= data < start + 32 && data - start
                    + size <= storage@.len() && bytes@ == storage@.subrange(
                    data - start,
                    data - start + size,
                ),
    {
        let (filled, storage, start) = choose|filled: Vec<u8>, storage: Vec<u8>, start: usize|
            call_ensures(
                Block::zero_filled,
                (reserved->0, (block.size + ALIGNMENT - 1) as usize),
                filled,
            ) && #[trigger] call_ensures(located, (filled,), (storage, start)) && block.lies_in(
                storage,
                start,
            );
        assert(Block::is_address(storage, start));
        assert(block.storage.len() == storage@.len());
        assert(block.size == size) by {
            assert(block@.len() == zeros(size as nat).len());
        }
        assert(bytes@ =~= storage@.subrange(data - start, data - start + size));
    }

    /// Where a storage was found is what the standard library said of it.
    proof fn law_address_is_found(storage: Vec<u8>, start: usize)
        requires
            Block::is_address(storage, start),
        ensures
            exists|asked: Vec<u8>| #[trigger] call_ensures(located, (asked,), (storage, start)),
    {
    }

    /// The address of the first byte.
    pub fn data(&self) -> (data: usize)
        ensures
            data == self.address(),
    {
        self.data
    }

    /// The bytes of the block.
    pub fn as_slice(&self) -> (bytes: &[u8])
        requires
            self.wf(),
        ensures
            bytes@ == self@,
    {
        vstd::slice::slice_subrange(self.storage.as_slice(), self.offset, self.offset + self.size)
    }

    /// Overwrites the bytes from `at` on with `bytes`.
    pub fn write(&mut self, at: usize, bytes: &[u8])
        requires
            old(self).wf(),
            at + bytes@.len() <= old(self)@.len(),
        ensures
            final(self).wf(),
            final(self).address() == old(self).address(),
            final(self).same_place(*old(self)),
            final(self)@ == overwritten(old(self)@, at as int, bytes@),
    {
        let mut done: usize = 0;
        while done < bytes.len()
            invariant
                done <= bytes@.len(),
                old(self).wf(),
                at + bytes@.len() <= old(self)@.len(),
                self.wf(),
                self.offset == old(self).offset,
                self.size == old(self).size,
                self.data == old(self).data,
                self.storage@.len() == old(self).storage@.len(),
                self@ == overwritten(old(self)@, at as int, bytes@.take(done as int)),
            decreases bytes@.len() - done,
        {
            let ghost before = self@;
            let position: usize = self.offset + at + done;
            self.storage.set(position, bytes[done]);
            assert(self@ =~= before.update(at + done, bytes@[done as int]));
            assert(self@ =~= overwritten(old(self)@, at as int, bytes@.take(done + 1)));
            done = done + 1;
        }
        assert(bytes@.take(done as int) =~= bytes@);
    }
}

/// How often the allocator was asked for a block, and how often it gave one.
pub struct RequestCount {
    pub asked: nat,
    pub granted: nat,
}

impl RequestCount {
    /// Before the first request.
    pub open spec fn none() -> RequestCount {
        RequestCount { asked: 0, granted: 0 }
    }

    /// After one more request.
    pub open spec fn one_more(self, granted: bool) -> RequestCount {
        RequestCount {
            asked: self.asked + 1,
            granted: if granted {
                self.granted + 1
            } else {
                self.granted
            },
        }
    }
}

/// The way to the allocator, which counts the requests that go through it. The count
/// exists in proofs only.
pub struct Requests {
    count: Ghost<RequestCount>,
}

impl View for Requests {
    type V = RequestCount;

    closed spec fn view(&self) -> RequestCount {
        self.count@
    }
}

impl Requests {
    /// A way that nothing went through yet.
    pub fn new() -> (requests: Requests)
        ensures
            requests@ == RequestCount::none(),
    {
        Requests { count: Ghost(RequestCount::none()) }
    }

    /// Asks for a block of `size` zero bytes: `None` when it is too large, or when
    /// the allocator has no room for it and its padding.
    pub fn alloc_zeroed(&mut self, size: usize) -> (block: Option<Block>)
        ensures
            final(self)@ == old(self)@.one_more(block is Some),
            Block::is_allocation(size as nat, block),
            block matches Some(block) ==> block.wf() && block@ == zeros(size as nat),
            block matches Some(block) ==> block.is_placed(),
            size > MAX_SIZE ==> block is None,
            size <= MAX_SIZE ==> exists|reserved: Option<Vec<u8>>| #[trigger]
                Block::is_reservation(size + ALIGNMENT - 1, reserved) && (block is Some
                    <==> reserved is Some) && (block matches Some(block) ==> block.is_made_of(
                    reserved->0,
                )),
    {
        let block = Block::alloc_zeroed(size);
        proof {
            self.count@ = self.count@.one_more(block is Some);
            assert(Block::is_allocation(size as nat, block));
        }
        block
    }
}

/// `bytes` with those from `at` on replaced by `patch`.
pub open spec fn overwritten(bytes: Seq<u8>, at: int, patch: Seq<u8>) -> Seq<u8> {
    Seq::new(
        bytes.len(),
        |i: int|
            if at <= i < at + patch.len() {
                patch[i - at]
            } else {
                bytes[i]
            },
    )
}

} // verus!
