use rsmpeg::error::{
    upgrade_pointer, upgrade_pointer_or, upgrade_status, RsmpegError, AVERROR, EINVAL, ENOMEM,
};
use rsmpeg::swscale::{
    AVFrame, CachedContextCall, ContextCall, ScaleCall, ScaleFrameCall, ScalerApi, SwsContext,
};

const AV_PIX_FMT_RGB24: i32 = 2;
const SWS_BICUBIC: u32 = 1 << 2;
const SWS_FULL_CHR_H_INT: u32 = 1 << 13;
const SWS_PARAM_DEFAULT: u32 = 123456;

fn request(param: Option<[u64; 2]>) -> ContextCall {
    SwsContext::get_context(
        10,
        10,
        AV_PIX_FMT_RGB24,
        10,
        10,
        AV_PIX_FMT_RGB24,
        SWS_FULL_CHR_H_INT | SWS_BICUBIC,
        None,
        None,
        param,
    )
}

fn legacy() -> SwsContext {
    match request(None).complete(0x1000) {
        Some(context) => context,
        None => panic!("no context"),
    }
}

fn modern() -> SwsContext {
    match SwsContext::alloc_context(0x2000) {
        Some(context) => context,
        None => panic!("no context"),
    }
}

fn frame(base: usize) -> AVFrame {
    AVFrame { frame: base, data: base + 8, linesize: base + 72 }
}

#[test]
fn test_cached_sws_context() {
    let context = SwsContext::get_context(
        10,
        10,
        AV_PIX_FMT_RGB24,
        10,
        10,
        AV_PIX_FMT_RGB24,
        SWS_FULL_CHR_H_INT | SWS_BICUBIC,
        None,
        None,
        Some([(SWS_PARAM_DEFAULT as f64).to_bits(), (SWS_PARAM_DEFAULT as f64).to_bits()]),
    )
    .complete(0x5000)
    .unwrap();
    let old_ptr = context.as_ptr();
    let call = context.get_cached_context(
        10,
        10,
        AV_PIX_FMT_RGB24,
        10,
        10,
        AV_PIX_FMT_RGB24,
        SWS_FULL_CHR_H_INT | SWS_BICUBIC,
        None,
        None,
        None,
    );
    // libswscale is asked about the context it gave out, and keeps it.
    assert_eq!(call.context, old_ptr);
    let context = call.complete(old_ptr).unwrap();
    let new_ptr = context.as_ptr();
    assert_eq!(old_ptr, new_ptr);
}

/// The part of a full scaling that needs no scaler: an allocated context hands both
/// frames on, whatever their properties, and success is reported as such.
#[test]
fn test_scale_full_frame() {
    let src = frame(0x4000);
    let dst = frame(0x8000);

    let mut context = SwsContext::alloc_context(0x2000).unwrap();
    let call = context.scale_full_frame(&dst, &src);
    assert_eq!(call, ScaleFrameCall { context: 0x2000, dst: 0x8000, src: 0x4000 });
    call.complete(0).unwrap();
}

#[test]
fn request_is_handed_on_unchanged() {
    let call = SwsContext::get_context(
        1,
        -2,
        3,
        4,
        5,
        -6,
        7,
        Some(0x80),
        None,
        Some([8, 9]),
    );
    assert_eq!(
        call,
        ContextCall {
            src_w: 1,
            src_h: -2,
            src_format: 3,
            dst_w: 4,
            dst_h: 5,
            dst_format: -6,
            flags: 7,
            src_filter: 0x80,
            dst_filter: 0,
            param: Some([8, 9]),
        }
    );
}

#[test]
fn flags_keep_their_bits() {
    let flags_of = |flags: u32| {
        SwsContext::get_context(1, 1, 0, 1, 1, 0, flags, None, None, None).flags
    };
    assert_eq!(flags_of(0), 0);
    assert_eq!(flags_of(0x7fff_ffff), i32::MAX);
    assert_eq!(flags_of(0x8000_0000), i32::MIN);
    assert_eq!(flags_of(0xffff_ffff), -1);
}

#[test]
fn null_means_no_context() {
    assert!(request(None).complete(0).is_none());
    assert!(SwsContext::alloc_context(0).is_none());
    assert_eq!(legacy().as_ptr(), 0x1000);
    assert_eq!(modern().into_raw(), 0x2000);
}

#[test]
fn cached_request_is_handed_on_unchanged() {
    for context in [legacy(), modern()] {
        let address = context.as_ptr();
        let call = context.get_cached_context(
            1,
            -2,
            3,
            4,
            5,
            -6,
            0xffff_ffff,
            None,
            Some(0x90),
            Some([8, 9]),
        );
        assert_eq!(
            call,
            CachedContextCall {
                context: address,
                call: ContextCall {
                    src_w: 1,
                    src_h: -2,
                    src_format: 3,
                    dst_w: 4,
                    dst_h: 5,
                    dst_format: -6,
                    flags: -1,
                    src_filter: 0,
                    dst_filter: 0x90,
                    param: Some([8, 9]),
                },
            }
        );
    }
}

#[test]
fn libswscale_is_asked_even_for_the_same_settings() {
    let call = legacy().get_cached_context(10, 10, 2, 10, 10, 2, 0x2004, None, None, None);
    assert_eq!(call, CachedContextCall { context: 0x1000, call: request(None) });
}

#[test]
fn cached_reply_decides() {
    let ask = || legacy().get_cached_context(20, 10, 2, 10, 10, 2, 4, None, None, None);
    assert_eq!(ask().complete(0x1000).unwrap().as_ptr(), 0x1000);
    assert!(ask().complete(0).is_none());
    let mut context = ask().complete(0x3000).unwrap();
    assert_eq!(context.as_ptr(), 0x3000);
    assert_eq!(context.api(), ScalerApi::Legacy);
    assert_eq!(context.scale(1, 2, 3, 4, 5, 6).context, 0x3000);
}

#[test]
fn scale_hands_everything_on() {
    let call = legacy().scale(0x10, 0x20, 3, 4, 0x30, 0x40);
    assert_eq!(
        call,
        ScaleCall {
            context: 0x1000,
            src_slice: 0x10,
            src_stride: 0x20,
            src_slice_y: 3,
            src_slice_h: 4,
            dst: 0x30,
            dst_stride: 0x40,
        }
    );
}

#[test]
fn scale_frame_hands_the_planes_on() {
    let call = legacy().scale_frame(&frame(0x100), 5, 6, &frame(0x200));
    assert_eq!(
        call,
        ScaleCall {
            context: 0x1000,
            src_slice: 0x108,
            src_stride: 0x148,
            src_slice_y: 5,
            src_slice_h: 6,
            dst: 0x208,
            dst_stride: 0x248,
        }
    );
}

#[test]
fn full_frame_hands_both_frames_on() {
    let call = modern().scale_full_frame(&frame(0x100), &frame(0x200));
    assert_eq!(call, ScaleFrameCall { context: 0x2000, dst: 0x100, src: 0x200 });
}

/// A context used with the other API reaches libswscale, whose refusal is reported.
#[test]
fn libswscale_decides_whether_the_apis_mix() {
    assert_eq!(legacy().api(), ScalerApi::Legacy);
    assert_eq!(modern().api(), ScalerApi::Modern);
    let refused = Err(RsmpegError::AVError(AVERROR(EINVAL)));

    let call = modern().scale(1, 2, 3, 4, 5, 6);
    assert_eq!(
        call,
        ScaleCall {
            context: 0x2000,
            src_slice: 1,
            src_stride: 2,
            src_slice_y: 3,
            src_slice_h: 4,
            dst: 5,
            dst_stride: 6,
        }
    );
    assert_eq!(call.complete(-22), refused);

    let call = modern().scale_frame(&frame(0x100), 0, 1, &frame(0x200));
    assert_eq!((call.context, call.src_slice, call.dst), (0x2000, 0x108, 0x208));
    assert_eq!(call.complete(-22), refused);

    let call = legacy().scale_full_frame(&frame(0x100), &frame(0x200));
    assert_eq!(call, ScaleFrameCall { context: 0x1000, dst: 0x100, src: 0x200 });
    assert_eq!(call.complete(-22), refused);
    assert_eq!(call.complete(0), Ok(()));
}

#[test]
fn negative_status_is_an_error() {
    let call = legacy().scale(1, 2, 3, 4, 5, 6);
    assert_eq!(call.complete(-5), Err(RsmpegError::AVError(-5)));
    assert_eq!(call.complete(i32::MIN), Err(RsmpegError::AVError(i32::MIN)));
    assert_eq!(call.complete(0), Ok(()));
    assert_eq!(call.complete(480), Ok(()));
    let call = modern().scale_full_frame(&frame(1), &frame(2));
    assert_eq!(call.complete(-12), Err(RsmpegError::AVError(AVERROR(ENOMEM))));
    assert_eq!(call.complete(0), Ok(()));
    assert_eq!(call.complete(7), Ok(()));
}

#[test]
fn replies_are_read_as_ffmpeg_means_them() {
    assert_eq!(upgrade_pointer(0), None);
    assert_eq!(upgrade_pointer(64), Some(64));
    assert_eq!(upgrade_pointer_or(64, ENOMEM), Ok(64));
    assert_eq!(upgrade_pointer_or(0, ENOMEM), Err(RsmpegError::AVError(-12)));
    assert_eq!(upgrade_pointer_or(0, EINVAL), Err(RsmpegError::AVError(-22)));
    assert_eq!(upgrade_status(3), Ok(3));
    assert_eq!(upgrade_status(-1), Err(RsmpegError::AVError(-1)));
    assert_eq!(AVERROR(0), 0);
    assert_eq!(AVERROR(EINVAL), -22);
    assert_eq!(AVERROR(ENOMEM), -12);
}
