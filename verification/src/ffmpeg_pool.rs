//! What is handed to FFmpeg's own buffer pool, and what its replies mean.
//!
//! As in [`crate::swscale`], every operation says which call to make, and
//! `complete` takes what that call returned. Addresses are plain numbers, and zero
//! is `NULL`.

use crate::error::{upgrade_pointer_or, RsmpegError, AVERROR, EINVAL, ENOMEM};
use vstd::prelude::*;

verus! {

/// A call of `av_buffer_pool_init`, with an allocator of zero-filled buffers.
#[derive(Debug, PartialEq, Eq)]
pub struct PoolInitCall {
    /// The size of every buffer.
    pub size: usize,
}

/// A call of `av_buffer_pool_get`.
#[derive(Debug, PartialEq, Eq)]
pub struct PoolGetCall {
    /// The address of the pool.
    pub pool: usize,
}

/// A pool that FFmpeg allocated.
pub struct FfmpegPool {
    address: usize,
    buffer_size: usize,
}

/// The state of an FFmpeg pool.
pub struct FfmpegPoolState {
    /// The address of the pool.
    pub address: usize,
    /// The size of every buffer.
    pub buffer_size: usize,
}

impl View for FfmpegPool {
    type V = FfmpegPoolState;

    closed spec fn view(&self) -> FfmpegPoolState {
        FfmpegPoolState { address: self.address, buffer_size: self.buffer_size }
    }
}

impl PoolInitCall {
    /// Takes the address that `av_buffer_pool_init` returned: `NULL` means that there
    /// is no memory, which is `ENOMEM`.
    pub fn complete(self, returned: usize) -> (pool: Result<FfmpegPool, RsmpegError>)
        ensures
            returned == 0 ==> pool == Err::<FfmpegPool, RsmpegError>(
                crate::error::averror_of(ENOMEM),
            ),
            returned != 0 ==> pool is Ok,
            pool matches Ok(pool) ==> pool@ == (FfmpegPoolState {
                address: returned,
                buffer_size: self.size,
            }),
    {
        match upgrade_pointer_or(returned, ENOMEM) {
            Ok(address) => Ok(FfmpegPool { address, buffer_size: self.size }),
            Err(error) => Err(error),
        }
    }
}

impl PoolGetCall {
    /// Takes the address that `av_buffer_pool_get` returned, which is that of a
    /// buffer reference: `NULL` means that there is no memory, which is `ENOMEM`.
    pub fn complete(self, returned: usize) -> (buffer: Result<usize, RsmpegError>)
        ensures
            buffer == if returned == 0 {
                Err(crate::error::averror_of(ENOMEM))
            } else {
                Ok(returned)
            },
    {
        upgrade_pointer_or(returned, ENOMEM)
    }
}

impl FfmpegPool {
    /// There is no pool at `NULL`.
    #[verifier::type_invariant]
    spec fn not_null(self) -> bool {
        self.address != 0
    }

    /// Asks for a pool whose buffers are all `buffer_size` bytes. A size of zero is
    /// rejected with `EINVAL`, and FFmpeg is not asked.
    pub fn new(buffer_size: usize) -> (call: Result<PoolInitCall, RsmpegError>)
        ensures
            call == if buffer_size == 0 {
                Err(crate::error::averror_of(EINVAL))
            } else {
                Ok(PoolInitCall { size: buffer_size })
            },
    {
        if buffer_size == 0 {
            return Err(RsmpegError::AVError(AVERROR(EINVAL)));
        }
        Ok(PoolInitCall { size: buffer_size })
    }

    /// Asks for a buffer.
    pub fn get(&mut self) -> (call: PoolGetCall)
        ensures
            final(self)@ == old(self)@,
            call == (PoolGetCall { pool: old(self)@.address }),
    {
        PoolGetCall { pool: self.address }
    }

    /// The size in bytes of every buffer of this pool.
    pub fn buffer_size(&self) -> (size: usize)
        ensures
            size == self@.buffer_size,
    {
        self.buffer_size
    }

    /// Lets go of the pool, whose address is to be handed to
    /// `av_buffer_pool_uninit`.
    pub fn into_raw(self) -> (address: usize)
        ensures
            address == self@.address,
            address != 0,
    {
        proof {
            use_type_invariant(&self);
        }
        self.address
    }
}

/// A pool is asked for exactly if its buffers are not empty, and then with the very
/// size; a size of zero is the error with the code -22.
pub proof fn law_only_an_empty_size_is_refused(
    buffer_size: usize,
    call: Result<PoolInitCall, RsmpegError>,
)
    requires
        call_ensures(FfmpegPool::new, (buffer_size,), call),
    ensures
        call is Ok <==> buffer_size != 0,
        call matches Ok(call) ==> call.size == buffer_size,
        call matches Err(RsmpegError::AVError(code)) ==> code == -22,
{
}

/// A reply stands for a pool exactly if it is not `NULL`, which is the error with the
/// code -12. The pool has the size that was asked for, and it gives back the address
/// that FFmpeg returned for it.
pub proof fn law_reply_is_a_pool(
    call: PoolInitCall,
    returned: usize,
    pool: Result<FfmpegPool, RsmpegError>,
)
    requires
        call_ensures(PoolInitCall::complete, (call, returned), pool),
    ensures
        pool is Ok <==> returned != 0,
        pool matches Err(RsmpegError::AVError(code)) ==> code == -12,
        pool matches Ok(pool) ==> forall|size: usize| #[trigger]
            call_ensures(FfmpegPool::buffer_size, (&pool,), size) ==> size == call.size,
        pool matches Ok(pool) ==> forall|address: usize| #[trigger]
            call_ensures(FfmpegPool::into_raw, (pool,), address) ==> address == returned,
{
}

/// Every request for a buffer goes to the pool, which stays as it is: it has the same
/// size, and the same address, before and after.
pub proof fn law_buffers_come_from_the_pool(
    pool: &mut FfmpegPool,
    address: usize,
    size: usize,
    call: PoolGetCall,
    address_after: usize,
    size_after: usize,
)
    requires
        call_ensures(FfmpegPool::into_raw, (*pool,), address),
        call_ensures(FfmpegPool::buffer_size, (&*pool,), size),
        call_ensures(FfmpegPool::get, (pool,), call),
        call_ensures(FfmpegPool::into_raw, (*final(pool),), address_after),
        call_ensures(FfmpegPool::buffer_size, (&*final(pool),), size_after),
    ensures
        call.pool == address,
        call.pool != 0,
        address_after == address,
        size_after == size,
{
}

/// A reply stands for a buffer exactly if it is not `NULL`, and then it is its
/// address; `NULL` is the error with the code -12.
pub proof fn law_reply_is_a_buffer(
    call: PoolGetCall,
    returned: usize,
    buffer: Result<usize, RsmpegError>,
)
    requires
        call_ensures(PoolGetCall::complete, (call, returned), buffer),
    ensures
        buffer is Ok <==> returned != 0,
        buffer matches Ok(address) ==> address == returned,
        buffer matches Err(RsmpegError::AVError(code)) ==> code == -12,
{
}

} // verus!
