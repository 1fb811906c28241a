//! What is handed to libswscale, and what its replies mean.
//!
//! Every operation comes in two halves. The first says which call to make, with
//! every argument. The second, `complete`, takes what that call returned.
//!
//! libswscale has two APIs, and a context belongs to one of them: see
//! [`ScalerApi`]. The versions of libswscale that keep track answer the use of a
//! context with the other API with `AVERROR(EINVAL)`, which `complete` reports as
//! it does every error.
//!
//! Addresses are plain numbers here, and zero is `NULL`. A scaler parameter is
//! the bit pattern of its double.

use crate::error::{upgrade_pointer, upgrade_status, RsmpegError};
use vstd::prelude::*;

verus! {

/// A `u32` set of flags as the C `int` that carries the same bits.
pub open spec fn signed_flags(flags: u32) -> int {
    if flags <= i32::MAX {
        flags as int
    } else {
        flags - 0x1_0000_0000
    }
}

/// A call of `sws_getContext`.
#[derive(Debug, PartialEq, Eq)]
pub struct ContextCall {
    pub src_w: i32,
    pub src_h: i32,
    pub src_format: i32,
    pub dst_w: i32,
    pub dst_h: i32,
    pub dst_format: i32,
    pub flags: i32,
    /// The address of the source filter.
    pub src_filter: usize,
    /// The address of the destination filter.
    pub dst_filter: usize,
    /// The two scaler parameters, or `None` for a `NULL` pointer to them.
    pub param: Option<[u64; 2]>,
}

/// A call of `sws_getCachedContext`.
#[derive(Debug, PartialEq, Eq)]
pub struct CachedContextCall {
    /// The address of the context to replace.
    pub context: usize,
    /// The other arguments.
    pub call: ContextCall,
}

/// A call of `sws_scale`.
#[derive(Debug, Clone, Copy, PartialEq, Eq)]
pub struct ScaleCall {
    /// The address of the context.
    pub context: usize,
    /// The address of the array of source planes.
    pub src_slice: usize,
    /// The address of the array of source strides.
    pub src_stride: usize,
    /// The first row of the slice.
    pub src_slice_y: i32,
    /// The number of rows of the slice.
    pub src_slice_h: i32,
    /// The address of the array of destination planes.
    pub dst: usize,
    /// The address of the array of destination strides.
    pub dst_stride: usize,
}

/// A call of `sws_scale_frame`.
#[derive(Debug, Clone, Copy, PartialEq, Eq)]
pub struct ScaleFrameCall {
    /// The address of the context.
    pub context: usize,
    /// The address of the destination frame.
    pub dst: usize,
    /// The address of the source frame.
    pub src: usize,
}

/// Where a frame lies in memory.
#[derive(Debug, Clone, Copy, PartialEq, Eq)]
pub struct AVFrame {
    /// The address of the frame.
    pub frame: usize,
    /// The address of its array of planes.
    pub data: usize,
    /// The address of its array of line sizes.
    pub linesize: usize,
}

/// Which of libswscale's two APIs a context belongs to. It must be used with no
/// other. Nothing here refuses it: libswscale does, in the versions that keep
/// track.
#[derive(Debug, Clone, Copy, PartialEq, Eq)]
pub enum ScalerApi {
    /// Set up once by `sws_getContext`, and used with `sws_scale`.
    Legacy,
    /// Allocated empty, and used with `sws_scale_frame`, which finds out what to do
    /// from the frames.
    Modern,
}

/// A scaling context that libswscale allocated.
pub struct SwsContext {
    address: usize,
    api: ScalerApi,
}

/// The state of a context.
pub struct ContextState {
    /// The address of the context.
    pub address: usize,
    /// The API that it belongs to.
    pub api: ScalerApi,
}

impl View for SwsContext {
    type V = ContextState;

    closed spec fn view(&self) -> ContextState {
        ContextState { address: self.address, api: self.api }
    }
}

/// The context that a returned address stands for: none, if it is `NULL`.
pub open spec fn context_at(returned: usize, api: ScalerApi) -> Option<ContextState> {
    if returned == 0 {
        None
    } else {
        Some(ContextState { address: returned, api })
    }
}

/// The state of a context, if there is one.
pub open spec fn state_of(context: Option<SwsContext>) -> Option<ContextState> {
    match context {
        Some(context) => Some(context@),
        None => None,
    }
}

/// What a status that libswscale returned means: a negative one is an error code.
pub open spec fn status_result(returned: i32) -> Result<(), RsmpegError> {
    if returned < 0 {
        Err(RsmpegError::AVError(returned))
    } else {
        Ok(())
    }
}

/// The address of an optional filter.
pub open spec fn filter_address(filter: Option<usize>) -> usize {
    match filter {
        Some(address) => address,
        None => 0,
    }
}

impl ContextCall {
    /// The arguments of `sws_getContext` for a request.
    pub open spec fn for_request(
        src_w: i32,
        src_h: i32,
        src_format: i32,
        dst_w: i32,
        dst_h: i32,
        dst_format: i32,
        flags: u32,
        src_filter: Option<usize>,
        dst_filter: Option<usize>,
        param: Option<[u64; 2]>,
    ) -> ContextCall {
        ContextCall {
            src_w,
            src_h,
            src_format,
            dst_w,
            dst_h,
            dst_format,
            flags: signed_flags(flags) as i32,
            src_filter: filter_address(src_filter),
            dst_filter: filter_address(dst_filter),
            param,
        }
    }

    /// Takes the address that `sws_getContext` returned: `NULL` means that there is
    /// no context, because the request is invalid or there is no memory.
    pub fn complete(self, returned: usize) -> (context: Option<SwsContext>)
        ensures
            state_of(context) == context_at(returned, ScalerApi::Legacy),
    {
        match upgrade_pointer(returned) {
            None => None,
            Some(address) => Some(SwsContext { address, api: ScalerApi::Legacy }),
        }
    }
}

impl CachedContextCall {
    /// Takes the address that `sws_getCachedContext` returned. If it is `context`,
    /// libswscale found that context set up as requested and kept it. Otherwise
    /// `context` is gone: libswscale freed it, even if it has no other to give.
    pub fn complete(self, returned: usize) -> (context: Option<SwsContext>)
        ensures
            state_of(context) == context_at(returned, ScalerApi::Legacy),
    {
        self.call.complete(returned)
    }
}

impl ScaleCall {
    /// Takes what `sws_scale` returned: a negative value is an error code, any
    /// other one the height of the output slice.
    pub fn complete(self, returned: i32) -> (result: Result<(), RsmpegError>)
        ensures
            result == status_result(returned),
    {
        match upgrade_status(returned) {
            Ok(_) => Ok(()),
            Err(error) => Err(error),
        }
    }
}

impl ScaleFrameCall {
    /// Takes what `sws_scale_frame` returned: a negative value is an error code, any
    /// other one a success.
    pub fn complete(self, returned: i32) -> (result: Result<(), RsmpegError>)
        ensures
            result == status_result(returned),
    {
        match upgrade_status(returned) {
            Ok(_) => Ok(()),
            Err(error) => Err(error),
        }
    }
}

impl SwsContext {
    /// There is no context at `NULL`.
    #[verifier::type_invariant]
    spec fn not_null(self) -> bool {
        self.address != 0
    }

    /// Asks for a context for scaling and conversion with [`Self::scale`]. Whether
    /// the request is valid, libswscale says.
    pub fn get_context(
        src_w: i32,
        src_h: i32,
        src_format: i32,
        dst_w: i32,
        dst_h: i32,
        dst_format: i32,
        flags: u32,
        src_filter: Option<usize>,
        dst_filter: Option<usize>,
        param: Option<[u64; 2]>,
    ) -> (call: ContextCall)
        ensures
            call == ContextCall::for_request(
                src_w,
                src_h,
                src_format,
                dst_w,
                dst_h,
                dst_format,
                flags,
                src_filter,
                dst_filter,
                param,
            ),
    {
        proof {
            assert(flags <= 0x7fff_ffff ==> flags as i32 == flags) by (bit_vector);
            assert(flags > 0x7fff_ffff ==> flags as i32 == flags - 0x1_0000_0000) by (bit_vector);
        }
        ContextCall {
            src_w,
            src_h,
            src_format,
            dst_w,
            dst_h,
            dst_format,
            flags: flags as i32,
            src_filter: src_filter.unwrap_or(0),
            dst_filter: dst_filter.unwrap_or(0),
            param,
        }
    }

    /// Asks for a context with these settings in place of this one. libswscale
    /// checks whether the parameters are the ones saved in the context, and then
    /// returns the same context; otherwise it frees the context and returns a new
    /// one. It takes the filters to be the same.
    pub fn get_cached_context(
        self,
        src_w: i32,
        src_h: i32,
        src_format: i32,
        dst_w: i32,
        dst_h: i32,
        dst_format: i32,
        flags: u32,
        src_filter: Option<usize>,
        dst_filter: Option<usize>,
        param: Option<[u64; 2]>,
    ) -> (call: CachedContextCall)
        ensures
            call == (CachedContextCall {
                context: self@.address,
                call: ContextCall::for_request(
                    src_w,
                    src_h,
                    src_format,
                    dst_w,
                    dst_h,
                    dst_format,
                    flags,
                    src_filter,
                    dst_filter,
                    param,
                ),
            }),
            call.context != 0,
    {
        let call = SwsContext::get_context(
            src_w,
            src_h,
            src_format,
            dst_w,
            dst_h,
            dst_format,
            flags,
            src_filter,
            dst_filter,
            param,
        );
        CachedContextCall { context: self.into_raw(), call }
    }

    /// Scales a slice, that is, consecutive rows, of the image whose planes and
    /// strides are at `src_slice` and `src_stride`, into the one at `dst` and
    /// `dst_stride`.
    ///
    /// Slices have to be given in order, from the top or from the bottom, and the
    /// context must be one of [`ScalerApi::Legacy`].
    pub fn scale(
        &mut self,
        src_slice: usize,
        src_stride: usize,
        src_slice_y: i32,
        src_slice_h: i32,
        dst: usize,
        dst_stride: usize,
    ) -> (call: ScaleCall)
        ensures
            final(self)@ == old(self)@,
            call == (ScaleCall {
                context: old(self)@.address,
                src_slice,
                src_stride,
                src_slice_y,
                src_slice_h,
                dst,
                dst_stride,
            }),
    {
        ScaleCall {
            context: self.address,
            src_slice,
            src_stride,
            src_slice_y,
            src_slice_h,
            dst,
            dst_stride,
        }
    }

    /// [`Self::scale`] with the planes and the line sizes of two frames.
    pub fn scale_frame(
        &mut self,
        src_frame: &AVFrame,
        src_slice_y: i32,
        src_slice_h: i32,
        dst_frame: &AVFrame,
    ) -> (call: ScaleCall)
        ensures
            final(self)@ == old(self)@,
            call == (ScaleCall {
                context: old(self)@.address,
                src_slice: src_frame.data,
                src_stride: src_frame.linesize,
                src_slice_y,
                src_slice_h,
                dst: dst_frame.data,
                dst_stride: dst_frame.linesize,
            }),
    {
        self.scale(
            src_frame.data,
            src_frame.linesize,
            src_slice_y,
            src_slice_h,
            dst_frame.data,
            dst_frame.linesize,
        )
    }

    /// Takes the address that `sws_alloc_context` returned: an empty context for
    /// [`Self::scale_full_frame`], or `NULL` when there is no memory.
    pub fn alloc_context(returned: usize) -> (context: Option<SwsContext>)
        ensures
            state_of(context) == context_at(returned, ScalerApi::Modern),
    {
        match upgrade_pointer(returned) {
            None => None,
            Some(address) => Some(SwsContext { address, api: ScalerApi::Modern }),
        }
    }

    /// Scales the image of `src` into `dst`, whose format, width and height say what
    /// to make of it. The buffers of `dst` may be left clear: the scaler then
    /// allocates them.
    ///
    /// The context must be one of [`ScalerApi::Modern`].
    pub fn scale_full_frame(&mut self, dst: &AVFrame, src: &AVFrame) -> (call: ScaleFrameCall)
        ensures
            final(self)@ == old(self)@,
            call == (ScaleFrameCall {
                context: old(self)@.address,
                dst: dst.frame,
                src: src.frame,
            }),
    {
        ScaleFrameCall { context: self.address, dst: dst.frame, src: src.frame }
    }

    /// The API that the context belongs to.
    pub fn api(&self) -> (api: ScalerApi)
        ensures
            api == self@.api,
    {
        self.api
    }

    /// The address of the context.
    pub fn as_ptr(&self) -> (address: usize)
        ensures
            address == self@.address,
            address != 0,
    {
        proof {
            use_type_invariant(self);
        }
        self.address
    }

    /// Lets go of the context, whose address is to be handed to `sws_freeContext`.
    pub fn into_raw(self) -> (address: usize)
        ensures
            address == self@.address,
            address != 0,
    {
        proof {
            use_type_invariant(&self);
        }
        self.address
    }
}

/// The number that reaches libswscale holds the bits of the flags: no two sets of
/// flags give the same number, and the set can be read back from it.
pub proof fn law_flags_keep_their_bits(one: u32, other: u32)
    ensures
        i32::MIN <= signed_flags(one) <= i32::MAX,
        signed_flags(one) == signed_flags(other) ==> one == other,
        signed_flags(one) as i32 as u32 == one,
{
    let flags = signed_flags(one) as i32;
    if one <= i32::MAX {
        assert(flags as u32 == one);
    } else {
        assert(flags as u32 == one) by (bit_vector)
            requires
                flags == one - 0x1_0000_0000,
        ;
    }
}

} // verus!
