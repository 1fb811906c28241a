//! Buffers and scaling contexts for programs that work with FFmpeg.
//!
//! * [`buffer_pool`] is this library's own pool of equally sized,
//!   reference-counted, zero-filled buffers, in its own memory. It recycles a buffer
//!   once its last reference is given up, as FFmpeg's `AVBufferPool` does, but it is
//!   not that pool, and makes no call into FFmpeg.
//! * [`ffmpeg_pool`] decides what is handed to FFmpeg's pool and what its replies
//!   mean.
//! * [`swscale`] decides what is handed to libswscale and what its replies mean.
//!
//! What the functions promise together, and of all inputs, is stated and proved in
//! [`pool_laws`], [`pool_call_laws`], [`block_laws`], [`context_laws`] and
//! [`swscale_laws`].

pub mod error;
pub mod block;
pub mod block_laws;
pub mod buffer_pool;
pub mod context_laws;
pub mod ffmpeg_pool;
pub mod pool_call_laws;
pub mod pool_laws;
pub mod pool_state;
pub mod swscale;
pub mod swscale_laws;
