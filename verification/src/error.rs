//! Error codes, and the reading of replies that follow FFmpeg's conventions.

use vstd::prelude::*;

verus! {

/// `errno` value for an argument that makes no sense.
pub const EINVAL: u32 = 22;

/// `errno` value for an exhausted allocator.
pub const ENOMEM: u32 = 12;

/// What went wrong.
#[derive(Debug, Clone, Copy, PartialEq, Eq, Structural)]
pub enum RsmpegError {
    /// A negative `AVERROR` code.
    AVError(i32),
}

/// The error that carries the `AVERROR` code of `errno`.
pub open spec fn averror_of(errno: u32) -> RsmpegError {
    RsmpegError::AVError((-(errno as int)) as i32)
}

/// Turns an `errno` value into the code FFmpeg reports for it.
#[allow(non_snake_case)]
pub fn AVERROR(errno: u32) -> (code: i32)
    requires
        errno <= i32::MAX,
    ensures
        code == -(errno as int),
{
    -(errno as i32)
}

impl RsmpegError {
    /// The `AVERROR` code of this error.
    pub fn raw_error(&self) -> (code: Option<i32>)
        ensures
            code is Some,
            *self == RsmpegError::AVError(code->0),
    {
        match self {
            RsmpegError::AVError(code) => Some(*code),
        }
    }
}

/// Reads an address that a C function returned: zero stands for `NULL`.
pub fn upgrade_pointer(address: usize) -> (upgraded: Option<usize>)
    ensures
        upgraded == if address == 0 {
            None
        } else {
            Some(address)
        },
{
    if address == 0 {
        None
    } else {
        Some(address)
    }
}

/// Reads an address that a C function returned, where `NULL` is the error `errno`.
pub fn upgrade_pointer_or(address: usize, errno: u32) -> (upgraded: Result<usize, RsmpegError>)
    requires
        errno <= i32::MAX,
    ensures
        upgraded == if address == 0 {
            Err(averror_of(errno))
        } else {
            Ok(address)
        },
{
    match upgrade_pointer(address) {
        Some(address) => Ok(address),
        None => Err(RsmpegError::AVError(AVERROR(errno))),
    }
}

/// Reads a status that a C function returned: a negative status is an error
/// code, any other status is a success.
pub fn upgrade_status(status: i32) -> (upgraded: Result<i32, RsmpegError>)
    ensures
        upgraded == if status < 0 {
            Err(RsmpegError::AVError(status))
        } else {
            Ok(status)
        },
{
    if status < 0 {
        Err(RsmpegError::AVError(status))
    } else {
        Ok(status)
    }
}

/// The code of an `errno` value is its negative, so that different values have
/// different codes, and an error gives back the code that it carries.
pub proof fn law_error_carries_its_code(errno: u32, code: i32, raw: Option<i32>)
    requires
        errno <= i32::MAX,
        call_ensures(AVERROR, (errno,), code),
        call_ensures(RsmpegError::raw_error, (&RsmpegError::AVError(code),), raw),
    ensures
        code + errno == 0,
        raw == Some(code),
{
}

/// An address is good exactly if it is not `NULL`, and it is then handed on as it is;
/// `NULL` is the error whose code is the negative of `errno`.
pub proof fn law_only_null_is_refused(
    address: usize,
    errno: u32,
    upgraded: Option<usize>,
    upgraded_or: Result<usize, RsmpegError>,
)
    requires
        errno <= i32::MAX,
        call_ensures(upgrade_pointer, (address,), upgraded),
        call_ensures(upgrade_pointer_or, (address, errno), upgraded_or),
    ensures
        upgraded is Some <==> address != 0,
        upgraded matches Some(same) ==> same == address,
        upgraded_or is Ok <==> address != 0,
        upgraded_or matches Ok(same) ==> same == address,
        upgraded_or matches Err(RsmpegError::AVError(code)) ==> code + errno == 0,
{
}

/// A status is an error exactly if it is negative, and either way it is handed on as
/// it is.
pub proof fn law_only_negative_is_an_error(status: i32, upgraded: Result<i32, RsmpegError>)
    requires
        call_ensures(upgrade_status, (status,), upgraded),
    ensures
        upgraded is Err <==> status < 0,
        upgraded matches Ok(same) ==> same == status,
        upgraded matches Err(RsmpegError::AVError(code)) ==> code == status,
{
}

} // verus!
