//! Socket-option value logic: the zero rejections, the clamps applied
//! before a value is handed to the operating system, and the normalization
//! of values read back from it.
//!
//! The system calls themselves are made by the host glue; every value they
//! are given, and every translation of what they return, is computed and
//! verified here.

use vstd::prelude::*;

use crate::error::{ErrorCode, Errno};
use crate::error::Platform;
use crate::error::spec_code_of_errno;

verus! {

/// The largest buffer size handed to the operating system.
pub const MAX_BUFFER_SIZE: usize = 0x7fff_ffff;

/// One second in nanoseconds, the smallest keep-alive time handed to the
/// operating system so that no fractional value is rounded down to zero.
pub const MIN_KEEP_ALIVE_NANOS: u64 = 1_000_000_000;

/// The largest keep-alive time handed to the operating system: 32767
/// seconds, the Linux maximum, which is the lowest limit across the
/// supported platforms.
pub const MAX_KEEP_ALIVE_NANOS: u64 = 32_767_000_000_000;

/// The largest keep-alive probe count handed to the operating system: the
/// Linux maximum, which is the lowest limit across the supported platforms.
pub const MAX_KEEP_ALIVE_COUNT: u32 = 127;

/// The buffer size actually handed to the operating system: the requested
/// size clamped into `[1, MAX_BUFFER_SIZE]`.
pub open spec fn spec_normalize_set_buffer_size(value: usize) -> usize {
    if value < 1 {
        1usize
    } else if value > MAX_BUFFER_SIZE {
        MAX_BUFFER_SIZE
    } else {
        value
    }
}

/// Clamp a buffer size into `[1, MAX_BUFFER_SIZE]` before it is handed to
/// the operating system.
pub fn normalize_set_buffer_size(value: usize) -> (r: usize)
    ensures
        r == spec_normalize_set_buffer_size(value),
{
    if value < 1 {
        1
    } else if value > MAX_BUFFER_SIZE {
        MAX_BUFFER_SIZE
    } else {
        value
    }
}

/// The buffer size reported to the guest for a value read back from the
/// operating system: halved on Linux, unchanged elsewhere.
pub open spec fn spec_normalize_get_buffer_size(platform: Platform, value: usize) -> usize {
    if platform == Platform::Linux {
        value / 2
    } else {
        value
    }
}

/// Normalize a buffer size read back from the operating system.  Linux
/// doubles the value passed to the setter to make room for bookkeeping and
/// reports the doubled value back; halving it returns the result to the
/// ballpark the application asked for.
pub fn normalize_get_buffer_size(platform: Platform, value: usize) -> (r: usize)
    ensures
        r == spec_normalize_get_buffer_size(platform, value),
{
    if platform == Platform::Linux {
        value / 2
    } else {
        value
    }
}

/// What a buffer-size request becomes: zero is rejected, everything else is
/// clamped.
pub open spec fn spec_prepare_buffer_size(value: usize) -> Result<usize, ErrorCode> {
    if value == 0 {
        Result::Err(ErrorCode::InvalidArgument)
    } else {
        Result::Ok(spec_normalize_set_buffer_size(value))
    }
}

/// Validate and clamp a requested buffer size: zero is rejected as an
/// invalid argument, every other value is clamped into
/// `[1, MAX_BUFFER_SIZE]` for the operating system.
pub fn prepare_buffer_size(value: usize) -> (r: Result<usize, ErrorCode>)
    ensures
        r == spec_prepare_buffer_size(value),
{
    if value == 0 {
        Result::Err(ErrorCode::InvalidArgument)
    } else {
        Result::Ok(normalize_set_buffer_size(value))
    }
}

/// What the outcome of a buffer-size system call means to the guest:
/// `ENOBUFS` counts as success.
pub open spec fn spec_buffer_size_set_result(r: Result<(), Errno>) -> Result<(), ErrorCode> {
    match r {
        Result::Ok(()) => Result::Ok(()),
        Result::Err(e) => if e == Errno::NoBufs {
            Result::Ok(())
        } else {
            Result::Err(spec_code_of_errno(e))
        },
    }
}

/// Interpret the outcome of a buffer-size system call.  Most platforms
/// treat the value as a performance hint and silently clamp it; only the
/// BSDs fail with `ENOBUFS` when it is out of range, so that outcome is
/// folded into success to normalize the more common hint semantics.
pub fn buffer_size_set_result(r: Result<(), Errno>) -> (out: Result<(), ErrorCode>)
    ensures
        out == spec_buffer_size_set_result(r),
{
    match r {
        Result::Ok(()) => Result::Ok(()),
        Result::Err(e) => {
            if e == Errno::NoBufs {
                Result::Ok(())
            } else {
                Result::Err(ErrorCode::from_errno(e))
            }
        },
    }
}

/// What a keep-alive time request (in nanoseconds) becomes: zero is
/// rejected, everything else is clamped into
/// `[MIN_KEEP_ALIVE_NANOS, MAX_KEEP_ALIVE_NANOS]`.
pub open spec fn spec_clamp_keep_alive_nanos(value: u64) -> Result<u64, ErrorCode> {
    if value == 0 {
        Result::Err(ErrorCode::InvalidArgument)
    } else if value < MIN_KEEP_ALIVE_NANOS {
        Result::Ok(MIN_KEEP_ALIVE_NANOS)
    } else if value > MAX_KEEP_ALIVE_NANOS {
        Result::Ok(MAX_KEEP_ALIVE_NANOS)
    } else {
        Result::Ok(value)
    }
}

/// Validate and clamp a keep-alive time given in nanoseconds: zero is
/// rejected as an invalid argument, every other value is clamped into
/// `[1s, 32767s]` for the operating system.
pub fn clamp_keep_alive_nanos(value: u64) -> (r: Result<u64, ErrorCode>)
    ensures
        r == spec_clamp_keep_alive_nanos(value),
{
    if value == 0 {
        Result::Err(ErrorCode::InvalidArgument)
    } else if value < MIN_KEEP_ALIVE_NANOS {
        Result::Ok(MIN_KEEP_ALIVE_NANOS)
    } else if value > MAX_KEEP_ALIVE_NANOS {
        Result::Ok(MAX_KEEP_ALIVE_NANOS)
    } else {
        Result::Ok(value)
    }
}

/// What a keep-alive count request becomes: zero is rejected, everything
/// else is clamped into `[1, MAX_KEEP_ALIVE_COUNT]`.
pub open spec fn spec_clamp_keep_alive_count(value: u32) -> Result<u32, ErrorCode> {
    if value == 0 {
        Result::Err(ErrorCode::InvalidArgument)
    } else if value > MAX_KEEP_ALIVE_COUNT {
        Result::Ok(MAX_KEEP_ALIVE_COUNT)
    } else {
        Result::Ok(value)
    }
}

/// Validate and clamp a keep-alive probe count: zero is rejected as an
/// invalid argument, every other value is clamped into `[1, 127]` for the
/// operating system.
pub fn clamp_keep_alive_count(value: u32) -> (r: Result<u32, ErrorCode>)
    ensures
        r == spec_clamp_keep_alive_count(value),
{
    if value == 0 {
        Result::Err(ErrorCode::InvalidArgument)
    } else if value > MAX_KEEP_ALIVE_COUNT {
        Result::Ok(MAX_KEEP_ALIVE_COUNT)
    } else {
        Result::Ok(value)
    }
}

/// What a raw time-to-live value read from the operating system becomes: a
/// value that does not fit a byte is reported as not supported.
pub open spec fn spec_ttl_from_raw(raw: u32) -> Result<u8, ErrorCode> {
    if raw > 255 {
        Result::Err(ErrorCode::NotSupported)
    } else {
        Result::Ok(raw as u8)
    }
}

/// Narrow a raw time-to-live value read from the operating system to a
/// byte; a wider value is reported as not supported.
pub fn ttl_from_raw(raw: u32) -> (r: Result<u8, ErrorCode>)
    ensures
        r == spec_ttl_from_raw(raw),
{
    if raw > 255 {
        Result::Err(ErrorCode::NotSupported)
    } else {
        Result::Ok(raw as u8)
    }
}

/// The buffer-size round trip: when the operating system stores what the
/// setter handed it (doubled on Linux, as is elsewhere) and the getter
/// reads it back, the guest sees the clamped request again -- in
/// particular at least half of what it asked for, and exactly what it
/// asked for whenever the request was within `[1, MAX_BUFFER_SIZE]`.
/// A request larger than twice `MAX_BUFFER_SIZE` is necessarily clamped
/// below half of itself, so the bound is stated up to that size.
pub proof fn lemma_buffer_size_round_trip(platform: Platform, value: usize, raw: usize)
    requires
        1 <= value,
        value <= 2 * (MAX_BUFFER_SIZE as int),
        raw == if platform == Platform::Linux {
            2 * spec_normalize_set_buffer_size(value)
        } else {
            spec_normalize_set_buffer_size(value) as int
        },
    ensures
        spec_normalize_get_buffer_size(platform, raw) == spec_normalize_set_buffer_size(value),
        spec_normalize_get_buffer_size(platform, raw) >= value / 2,
        value <= MAX_BUFFER_SIZE ==> spec_normalize_get_buffer_size(platform, raw) == value,
{
}

} // verus!
