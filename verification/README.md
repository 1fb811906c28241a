# rsmpeg

Buffers and scaling contexts for programs that work with FFmpeg, verified with Verus.

* `src/buffer_pool.rs` is this library's own pool of equally sized,
  reference-counted buffers; it makes no call into FFmpeg. The pool owns the memory,
  and a reference names its pool in every operation. The states and transitions that
  the contracts speak of are in `src/pool_state.rs`, what they promise over several
  calls in `src/pool_laws.rs`, and the aligned, zero-filled memory underneath in
  `src/block.rs`.
* `src/ffmpeg_pool.rs` decides which call of FFmpeg's pool to make, and what its
  reply means.
* `src/swscale.rs` decides which call of libswscale to make, with every argument,
  and what its reply means. `src/context_laws.rs` keeps the books of all contexts
  that the replies stand for.
* `src/error.rs` holds the error codes and the reading of C replies.
* `app/` is ordinary Rust around the library: buffers that give themselves back
  when they are dropped, and the calls into FFmpeg. It needs the FFmpeg libraries.
