use rsmpeg::error::{RsmpegError, AVERROR, EINVAL, ENOMEM};
use rsmpeg::ffmpeg_pool::{FfmpegPool, PoolGetCall, PoolInitCall};

fn init(size: usize) -> PoolInitCall {
    match FfmpegPool::new(size) {
        Ok(call) => call,
        Err(error) => panic!("no call: {:?}", error),
    }
}

fn pool_at(size: usize, address: usize) -> FfmpegPool {
    match init(size).complete(address) {
        Ok(pool) => pool,
        Err(error) => panic!("no pool: {:?}", error),
    }
}

#[test]
fn size_of_zero_is_not_handed_on() {
    assert_eq!(FfmpegPool::new(0), Err(RsmpegError::AVError(AVERROR(EINVAL))));
    assert_eq!(FfmpegPool::new(0), Err(RsmpegError::AVError(-22)));
}

#[test]
fn other_sizes_are_handed_on() {
    assert_eq!(init(1), PoolInitCall { size: 1 });
    assert_eq!(init(usize::MAX), PoolInitCall { size: usize::MAX });
}

#[test]
fn null_pool_means_no_memory() {
    match init(1024).complete(0) {
        Ok(_) => panic!("there is no pool at NULL"),
        Err(error) => assert_eq!(error.raw_error(), Some(AVERROR(ENOMEM))),
    }
    let pool = pool_at(1024, 0x7000);
    assert_eq!(pool.buffer_size(), 1024);
    assert_eq!(pool.into_raw(), 0x7000);
}

#[test]
fn null_buffer_means_no_memory() {
    let mut pool = pool_at(64, 0x7000);
    assert_eq!(pool.get(), PoolGetCall { pool: 0x7000 });
    assert_eq!(pool.get().complete(0x9000), Ok(0x9000));
    assert_eq!(pool.get().complete(0), Err(RsmpegError::AVError(-12)));
    assert_eq!(pool.buffer_size(), 64);
}
