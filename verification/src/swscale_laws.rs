//! What the calls that are handed to libswscale, and the readings of its replies,
//! have to do with what went in.
//!
//! A law speaks of calls of the library: `call_ensures(f, arguments, result)` says
//! that `f` was called with these arguments and returned this result. A parameter
//! that is a mutable reference stands for what it refers to before the call, and
//! inside `final(..)` after it.

use crate::error::RsmpegError;
use crate::swscale::{
    AVFrame, CachedContextCall, ContextCall, ScaleCall, ScaleFrameCall, ScalerApi, SwsContext,
};
use vstd::prelude::*;

verus! {

/// Every argument of a request reaches `sws_getContext` unchanged, in its own place.
/// The flags keep their bits; a filter that is not given is `NULL`.
pub proof fn law_request_is_handed_on(
    src_w: i32,
    src_h: i32,
    src_format: i32,
    dst_w: i32,
    dst_h: i32,
    dst_format: i32,
    flags: u32,
    src_filter: Option<usize>,
    dst_filter: Option<usize>,
    param: Option<[u64; 2]>,
    call: ContextCall,
)
    requires
        call_ensures(
            SwsContext::get_context,
            (
                src_w,
                src_h,
                src_format,
                dst_w,
                dst_h,
                dst_format,
                flags,
                src_filter,
                dst_filter,
                param,
            ),
            call,
        ),
    ensures
        call.src_w == src_w,
        call.src_h == src_h,
        call.src_format == src_format,
        call.dst_w == dst_w,
        call.dst_h == dst_h,
        call.dst_format == dst_format,
        call.flags == flags || call.flags == flags - 0x1_0000_0000,
        src_filter matches Some(address) ==> call.src_filter == address,
        src_filter is None ==> call.src_filter == 0,
        dst_filter matches Some(address) ==> call.dst_filter == address,
        dst_filter is None ==> call.dst_filter == 0,
        call.param == param,
{
}

/// A request for a context in place of another one hands over the address of that
/// context, and beside it what a request for a new one would hand over.
pub proof fn law_cached_request_is_handed_on(
    context: SwsContext,
    address: usize,
    src_w: i32,
    src_h: i32,
    src_format: i32,
    dst_w: i32,
    dst_h: i32,
    dst_format: i32,
    flags: u32,
    src_filter: Option<usize>,
    dst_filter: Option<usize>,
    param: Option<[u64; 2]>,
    call: CachedContextCall,
    fresh: ContextCall,
)
    requires
        call_ensures(SwsContext::as_ptr, (&context,), address),
        call_ensures(
            SwsContext::get_cached_context,
            (
                context,
                src_w,
                src_h,
                src_format,
                dst_w,
                dst_h,
                dst_format,
                flags,
                src_filter,
                dst_filter,
                param,
            ),
            call,
        ),
        call_ensures(
            SwsContext::get_context,
            (
                src_w,
                src_h,
                src_format,
                dst_w,
                dst_h,
                dst_format,
                flags,
                src_filter,
                dst_filter,
                param,
            ),
            fresh,
        ),
    ensures
        call.context == address,
        call.context != 0,
        call.call == fresh,
        call.call.src_w == src_w,
        call.call.src_h == src_h,
        call.call.src_format == src_format,
        call.call.dst_w == dst_w,
        call.call.dst_h == dst_h,
        call.call.dst_format == dst_format,
        call.call.flags == flags || call.call.flags == flags - 0x1_0000_0000,
        src_filter matches Some(filter) ==> call.call.src_filter == filter,
        src_filter is None ==> call.call.src_filter == 0,
        dst_filter matches Some(filter) ==> call.call.dst_filter == filter,
        dst_filter is None ==> call.call.dst_filter == 0,
        call.call.param == param,
{
}

/// A reply of `sws_getContext` stands for a context exactly if it is not `NULL`,
/// whatever was asked for: that context is of the legacy API.
pub proof fn law_reply_is_a_context(call: ContextCall, returned: usize, context: Option<SwsContext>)
    requires
        call_ensures(ContextCall::complete, (call, returned), context),
    ensures
        context is Some <==> returned != 0,
        context matches Some(context) ==> context@.address == returned,
        context matches Some(context) ==> context@.api is Legacy,
{
}

/// A reply of `sws_getCachedContext` stands for a context exactly if it is not
/// `NULL`, whatever context was handed over: that context is of the legacy API.
pub proof fn law_cached_reply_is_a_context(
    call: CachedContextCall,
    returned: usize,
    context: Option<SwsContext>,
)
    requires
        call_ensures(CachedContextCall::complete, (call, returned), context),
    ensures
        context is Some <==> returned != 0,
        context matches Some(context) ==> context@.address == returned,
        context matches Some(context) ==> context@.api is Legacy,
{
}

/// A reply of `sws_alloc_context` stands for a context exactly if it is not `NULL`:
/// that context is of the modern API.
pub proof fn law_allocated_reply_is_a_context(returned: usize, context: Option<SwsContext>)
    requires
        call_ensures(SwsContext::alloc_context, (returned,), context),
    ensures
        context is Some <==> returned != 0,
        context matches Some(context) ==> context@.address == returned,
        context matches Some(context) ==> context@.api is Modern,
{
}

/// `context` is what the library made of the address `returned`, in one of the
/// three ways.
pub open spec fn made_of(context: SwsContext, returned: usize, api: ScalerApi) -> bool {
    ||| api is Legacy && exists|call: ContextCall| #[trigger]
        call_ensures(ContextCall::complete, (call, returned), Some(context))
    ||| api is Legacy && exists|call: CachedContextCall| #[trigger]
        call_ensures(CachedContextCall::complete, (call, returned), Some(context))
    ||| api is Modern && call_ensures(SwsContext::alloc_context, (returned,), Some(context))
}

/// A context gives back the address that libswscale returned for it, to whoever
/// looks at it and to whoever frees it, and it says which API it belongs to.
pub proof fn law_context_gives_its_address_back(
    context: SwsContext,
    returned: usize,
    made_for: ScalerApi,
    address: usize,
    freed: usize,
    api: ScalerApi,
)
    requires
        made_of(context, returned, made_for),
        call_ensures(SwsContext::as_ptr, (&context,), address),
        call_ensures(SwsContext::into_raw, (context,), freed),
        call_ensures(SwsContext::api, (&context,), api),
    ensures
        address == returned,
        freed == returned,
        address != 0,
        api == made_for,
{
}

/// Scaling a slice hands on the address of the context, whatever its API, and every
/// argument in its own place, and leaves the context as it is.
pub proof fn law_slice_is_handed_on(
    context: &mut SwsContext,
    address: usize,
    src_slice: usize,
    src_stride: usize,
    src_slice_y: i32,
    src_slice_h: i32,
    dst: usize,
    dst_stride: usize,
    call: ScaleCall,
    address_after: usize,
)
    requires
        call_ensures(SwsContext::as_ptr, (&*context,), address),
        call_ensures(
            SwsContext::scale,
            (context, src_slice, src_stride, src_slice_y, src_slice_h, dst, dst_stride),
            call,
        ),
        call_ensures(SwsContext::as_ptr, (&*final(context),), address_after),
    ensures
        call.context == address,
        call.src_slice == src_slice,
        call.src_stride == src_stride,
        call.src_slice_y == src_slice_y,
        call.src_slice_h == src_slice_h,
        call.dst == dst,
        call.dst_stride == dst_stride,
        address_after == address,
        final(context)@.api == old(context)@.api,
{
}

/// Scaling a slice of a frame hands on the planes and the line sizes of both frames,
/// the rows and the context, and leaves the context as it is.
pub proof fn law_frame_slice_is_handed_on(
    context: &mut SwsContext,
    address: usize,
    src_frame: AVFrame,
    src_slice_y: i32,
    src_slice_h: i32,
    dst_frame: AVFrame,
    call: ScaleCall,
    address_after: usize,
)
    requires
        call_ensures(SwsContext::as_ptr, (&*context,), address),
        call_ensures(
            SwsContext::scale_frame,
            (context, &src_frame, src_slice_y, src_slice_h, &dst_frame),
            call,
        ),
        call_ensures(SwsContext::as_ptr, (&*final(context),), address_after),
    ensures
        call.context == address,
        call.src_slice == src_frame.data,
        call.src_stride == src_frame.linesize,
        call.src_slice_y == src_slice_y,
        call.src_slice_h == src_slice_h,
        call.dst == dst_frame.data,
        call.dst_stride == dst_frame.linesize,
        address_after == address,
        final(context)@.api == old(context)@.api,
{
}

/// Scaling a frame hands on the context, whatever its API, and both frames, each in
/// its own place, and leaves the context as it is.
pub proof fn law_frames_are_handed_on(
    context: &mut SwsContext,
    address: usize,
    dst: AVFrame,
    src: AVFrame,
    call: ScaleFrameCall,
    address_after: usize,
)
    requires
        call_ensures(SwsContext::as_ptr, (&*context,), address),
        call_ensures(SwsContext::scale_full_frame, (context, &dst, &src), call),
        call_ensures(SwsContext::as_ptr, (&*final(context),), address_after),
    ensures
        call.context == address,
        call.dst == dst.frame,
        call.src == src.frame,
        address_after == address,
        final(context)@.api == old(context)@.api,
{
}

/// A reply of `sws_scale` is an error exactly if it is negative, and then it is the
/// code of the error, whatever was scaled.
pub proof fn law_negative_height_is_an_error(
    call: ScaleCall,
    returned: i32,
    result: Result<(), RsmpegError>,
)
    requires
        call_ensures(ScaleCall::complete, (call, returned), result),
    ensures
        result is Err <==> returned < 0,
        result matches Err(error) ==> error == RsmpegError::AVError(returned),
{
}

/// A reply of `sws_scale_frame` is an error exactly if it is negative, and then it is
/// the code of the error, whatever was scaled.
pub proof fn law_negative_status_is_an_error(
    call: ScaleFrameCall,
    returned: i32,
    result: Result<(), RsmpegError>,
)
    requires
        call_ensures(ScaleFrameCall::complete, (call, returned), result),
    ensures
        result is Err <==> returned < 0,
        result matches Err(error) ==> error == RsmpegError::AVError(returned),
{
}

} // verus!
