use rsmpeg::block::{Block, Requests, MAX_SIZE};
use rsmpeg::buffer_pool::{AVBufferPool, AVBufferRef};
use rsmpeg::error::{RsmpegError, AVERROR, EINVAL, ENOMEM};

fn pool_of(size: usize) -> AVBufferPool {
    match AVBufferPool::new(size) {
        Ok(pool) => pool,
        Err(error) => panic!("no pool: {:?}", error),
    }
}

fn take(pool: &mut AVBufferPool) -> AVBufferRef {
    match pool.get() {
        Ok(buffer) => buffer,
        Err(error) => panic!("no buffer: {:?}", error),
    }
}

/// A fresh buffer has the requested size, refcount 1 and writable data.
#[test]
fn new_pool_hands_out_sized_buffers() {
    let mut pool = pool_of(1024);

    let a = take(&mut pool);
    assert_eq!(a.size(), 1024);
    assert_eq!(pool.buffer_size(), 1024);
    assert_eq!(a.get_ref_count(&pool), 1);
    assert!(a.is_writable(&pool));
}

/// Buffers are zero-filled on allocation.
#[test]
fn buffers_are_zero_filled_on_allocation() {
    let mut pool = pool_of(4096);
    let a = take(&mut pool);
    let data = a.as_slice(&pool);
    assert_eq!(data.len(), 4096);
    assert!(data.iter().all(|&byte| byte == 0));
}

/// Giving a buffer up returns it to the pool; the next acquisition recycles the
/// very same memory instead of allocating anew.
#[test]
fn dropped_buffers_are_recycled() {
    let mut pool = pool_of(1024);

    let a = take(&mut pool);
    let a_addr = a.data();
    a.unref(&mut pool);

    let b = take(&mut pool);
    assert_eq!(b.data(), a_addr);
}

/// While previous buffers are still referenced, the pool has to grow: buffers
/// that are held at the same time never share memory.
#[test]
fn held_buffers_do_not_share_memory() {
    let mut pool = pool_of(1024);

    let a = take(&mut pool);
    let b = take(&mut pool);
    let c = take(&mut pool);
    assert_ne!(a.data(), b.data());
    assert_ne!(b.data(), c.data());
    assert_ne!(a.data(), c.data());
}

/// Buffer addresses are aligned to at least 32 bytes.
#[test]
fn buffer_data_is_aligned() {
    let mut pool = pool_of(1024);
    for _ in 0..8 {
        let buffer = take(&mut pool);
        assert_eq!(buffer.data() % 32, 0);
        buffer.unref(&mut pool);
    }
}

/// Cloning a reference increments the count, giving the clone up restores it.
#[test]
fn refcounts_are_tracked() {
    let mut pool = pool_of(1024);
    let a = take(&mut pool);

    let cloned = a.clone_ref(&mut pool);
    assert_eq!(a.get_ref_count(&pool), 2);
    assert!(!a.is_writable(&pool), "shared buffers are not writable");

    cloned.unref(&mut pool);
    assert_eq!(a.get_ref_count(&pool), 1);
    assert!(a.is_writable(&pool));
}

/// Closing the pool while buffers are still checked out is safe.
#[test]
fn pool_can_be_dropped_with_outstanding_buffers() {
    let mut pool = pool_of(512);
    let outstanding = take(&mut pool);

    pool.uninit();
    assert_eq!(outstanding.as_slice(&pool).len(), 512);
    outstanding.unref(&mut pool);
    drop(pool);
}

/// A zero-sized pool is rejected with `EINVAL`.
#[test]
fn zero_sized_pool_is_rejected() {
    match AVBufferPool::new(0) {
        Ok(_) => panic!("a zero-sized pool should be rejected"),
        Err(err) => assert_eq!(err.raw_error(), Some(AVERROR(EINVAL))),
    }
}

/// While `a` is held the pool grows; once it came back, it is handed out again.
#[test]
fn pool_grows_then_recycles() {
    let mut pool = pool_of(1024);
    let a = take(&mut pool);
    let b = take(&mut pool);
    assert_ne!(a.data(), b.data());

    let a_addr = a.data();
    a.unref(&mut pool);
    let c = take(&mut pool);
    assert_eq!(c.data(), a_addr);
    assert_eq!(c.get_ref_count(&pool), 1);

    b.unref(&mut pool);
    c.unref(&mut pool);
}

#[test]
fn buffers_held_at_once_are_aligned_and_not_null() {
    let mut pool = pool_of(17);
    let mut held = Vec::new();
    for _ in 0..8 {
        held.push(take(&mut pool));
    }
    for buffer in &held {
        assert_ne!(buffer.data(), 0);
        assert_eq!(buffer.data() % 32, 0);
        assert_eq!(buffer.size(), 17);
    }
    for (i, one) in held.iter().enumerate() {
        for other in &held[i + 1..] {
            assert!(one.data().abs_diff(other.data()) >= 17);
        }
    }
}

#[test]
fn address_is_where_the_bytes_are() {
    let mut pool = pool_of(100);
    let a = take(&mut pool);
    assert_eq!(a.as_slice(&pool).as_ptr() as usize, a.data());
    let b = take(&mut pool);
    assert_eq!(b.as_slice(&pool).as_ptr() as usize, b.data());
    assert_eq!(a.as_slice(&pool).as_ptr() as usize, a.data());
}

#[test]
fn recycled_buffers_are_not_cleared() {
    let mut pool = pool_of(8);
    let a = take(&mut pool);
    a.write(&mut pool, 2, &[7, 8, 9]);
    assert_eq!(a.as_slice(&pool), &[0, 0, 7, 8, 9, 0, 0, 0]);
    a.unref(&mut pool);

    let b = take(&mut pool);
    assert_eq!(b.as_slice(&pool), &[0, 0, 7, 8, 9, 0, 0, 0]);
    let fresh = take(&mut pool);
    assert_eq!(fresh.as_slice(&pool), &[0; 8]);
}

#[test]
fn writes_reach_one_buffer() {
    let mut pool = pool_of(4);
    let a = take(&mut pool);
    let b = take(&mut pool);
    a.write(&mut pool, 0, &[1, 2, 3, 4]);
    b.write(&mut pool, 3, &[5]);
    a.write(&mut pool, 4, &[]);
    assert_eq!(a.as_slice(&pool), &[1, 2, 3, 4]);
    assert_eq!(b.as_slice(&pool), &[0, 0, 0, 5]);
}

#[test]
fn clones_see_the_same_bytes() {
    let mut pool = pool_of(2);
    let a = take(&mut pool);
    a.write(&mut pool, 0, &[4, 2]);
    let b = a.clone_ref(&mut pool);
    assert_eq!(b.data(), a.data());
    assert_eq!(b.size(), 2);
    assert_eq!(b.as_slice(&pool), &[4, 2]);
    a.unref(&mut pool);
    assert_eq!(b.get_ref_count(&pool), 1);
    assert_eq!(b.as_slice(&pool), &[4, 2]);
}

#[test]
fn only_the_last_reference_returns_the_buffer() {
    let mut pool = pool_of(64);
    let a = take(&mut pool);
    let b = a.clone_ref(&mut pool);
    let addr = a.data();
    a.unref(&mut pool);
    let other = take(&mut pool);
    assert_ne!(other.data(), addr);
    b.unref(&mut pool);
    let again = take(&mut pool);
    assert_eq!(again.data(), addr);
}

#[test]
fn last_returned_is_recycled_first() {
    let mut pool = pool_of(64);
    let a = take(&mut pool);
    let b = take(&mut pool);
    let (a_addr, b_addr) = (a.data(), b.data());
    a.unref(&mut pool);
    b.unref(&mut pool);
    assert_eq!(take(&mut pool).data(), b_addr);
    assert_eq!(take(&mut pool).data(), a_addr);
}

#[test]
fn steady_stream_stops_allocating() {
    let mut pool = pool_of(256);
    let mut seen = Vec::new();
    for _ in 0..100 {
        let a = take(&mut pool);
        let b = take(&mut pool);
        for address in [a.data(), b.data()] {
            if !seen.contains(&address) {
                seen.push(address);
            }
        }
        a.unref(&mut pool);
        b.unref(&mut pool);
    }
    assert_eq!(seen.len(), 2);
}

#[test]
fn closing_keeps_what_is_held() {
    let mut pool = pool_of(3);
    let idle = take(&mut pool);
    let held = take(&mut pool);
    held.write(&mut pool, 0, &[1, 2, 3]);
    idle.unref(&mut pool);
    let shared = held.clone_ref(&mut pool);
    pool.uninit();
    assert_eq!(held.get_ref_count(&pool), 2);
    held.unref(&mut pool);
    assert_eq!(shared.get_ref_count(&pool), 1);
    assert_eq!(shared.as_slice(&pool), &[1, 2, 3]);
    shared.unref(&mut pool);
}

#[test]
fn exhausted_allocator_is_reported() {
    let mut pool = pool_of(usize::MAX);
    match pool.get() {
        Ok(_) => panic!("there is no such amount of memory"),
        Err(err) => assert_eq!(err, RsmpegError::AVError(-12)),
    }
    let mut pool = pool_of(usize::MAX / 2 + 1);
    match pool.get() {
        Ok(_) => panic!("there is no such amount of memory"),
        Err(err) => assert_eq!(err.raw_error(), Some(AVERROR(ENOMEM))),
    }
}

#[test]
fn buffers_past_the_limit_are_refused() {
    let mut pool = pool_of(0x8000_0000);
    assert_eq!(pool.buffer_size(), 0x8000_0000);
    for _ in 0..2 {
        match pool.get() {
            Ok(_) => panic!("a buffer may not be larger than the limit"),
            Err(err) => assert_eq!(err, RsmpegError::AVError(-12)),
        }
    }
}

#[test]
fn allocation_decides_only_without_idle_buffers() {
    let mut pool = pool_of(16);
    match pool.get_from(None) {
        Ok(_) => panic!("nothing was allocated"),
        Err(err) => assert_eq!(err, RsmpegError::AVError(-12)),
    }
    let a = match pool.get_from(Requests::new().alloc_zeroed(16)) {
        Ok(a) => a,
        Err(err) => panic!("{:?}", err),
    };
    let addr = a.data();
    a.unref(&mut pool);
    match pool.get_from(None) {
        Ok(a) => assert_eq!(a.data(), addr),
        Err(err) => panic!("{:?}", err),
    }
}

#[test]
fn zero_sized_pool_error_is_minus_22() {
    match AVBufferPool::new(0) {
        Ok(_) => panic!("a zero-sized pool should be rejected"),
        Err(err) => assert_eq!(err, RsmpegError::AVError(-22)),
    }
    assert_eq!(pool_of(1).buffer_size(), 1);
}

#[test]
fn block_of_zero_bytes_is_empty() {
    match Requests::new().alloc_zeroed(0) {
        Some(block) => assert_eq!(block.as_slice().len(), 0),
        None => panic!("no memory"),
    }
    assert!(Requests::new().alloc_zeroed(usize::MAX).is_none());
    assert_eq!(MAX_SIZE, 0x7fff_ffff);
    assert!(Requests::new().alloc_zeroed(0x8000_0000).is_none());
}

#[test]
fn block_can_be_written() {
    match Requests::new().alloc_zeroed(5) {
        Some(mut block) => {
            let address = block.data();
            block.write(1, &[9, 8]);
            assert_eq!(block.as_slice(), &[0, 9, 8, 0, 0]);
            assert_eq!(block.data(), address);
            assert_eq!(address % 32, 0);
        }
        None => panic!("no memory"),
    }
}

#[test]
fn reservation_decides_whether_there_is_a_block() {
    match Block::from_reserved(3, Block::reserve(34)) {
        Some(block) => {
            assert_eq!(block.as_slice(), &[0, 0, 0]);
            assert_ne!(block.data(), 0);
            assert_eq!(block.data() % 32, 0);
        }
        None => panic!("no memory"),
    }
    assert!(Block::from_reserved(3, None).is_none());
    assert!(Block::reserve(usize::MAX).is_none());
}

#[test]
fn block_starts_at_the_first_aligned_address() {
    let storage = |size: usize| (0..size + 31).map(|i| i as u8).collect::<Vec<u8>>();
    let block = Block::placed(storage(4), 4, 0x1001);
    assert_eq!(block.data(), 0x1020);
    assert_eq!(block.as_slice(), &[31, 32, 33, 34]);
    let block = Block::placed(storage(4), 4, 0x1020);
    assert_eq!(block.data(), 0x1020);
    assert_eq!(block.as_slice(), &[0, 1, 2, 3]);
    let block = Block::placed(storage(0), 0, 0x103f);
    assert_eq!(block.data(), 0x1040);
    assert_eq!(block.as_slice().len(), 0);
}

#[test]
fn every_order_of_giving_up_is_safe() {
    for order in 0..3 {
        let mut pool = pool_of(64);
        let a = take(&mut pool);
        let b = take(&mut pool);
        let c = b.clone_ref(&mut pool);
        if order == 0 {
            pool.uninit();
        }
        a.unref(&mut pool);
        b.unref(&mut pool);
        if order == 1 {
            pool.uninit();
        }
        assert_eq!(c.get_ref_count(&pool), 1);
        c.unref(&mut pool);
        if order == 2 {
            pool.uninit();
        }
    }
}
