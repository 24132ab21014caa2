//! Status of a resize call, shared by all entry points.

use vstd::prelude::*;
use crate::axis::axis_ok;
use crate::image::dims_ok;
use crate::status::{RESIZE_ERR_MEMORY, RESIZE_OK};
use crate::validate::{image_bytes, validate_params, validation_error, MAX_DIMENSION, MAX_PIXELS};

verus! {

/// Status of a resize call on buffers of `src_len` and `dst_len` bytes at
/// `src_addr` and `dst_addr`: the validation error if there is one, else
/// `RESIZE_ERR_MEMORY` if a buffer's length is not what its dimensions call
/// for, else `RESIZE_OK`.
pub open spec fn call_status(
    src_addr: int,
    src_len: int,
    src_w: int,
    src_h: int,
    dst_addr: int,
    dst_len: int,
    dst_w: int,
    dst_h: int,
) -> i32 {
    match validation_error(src_addr, src_w, src_h, dst_addr, dst_w, dst_h) {
        Some(e) => e,
        None => if src_len != image_bytes(src_w, src_h) || dst_len != image_bytes(dst_w, dst_h) {
            RESIZE_ERR_MEMORY
        } else {
            RESIZE_OK
        },
    }
}

/// What a resampler may assume once a call has been accepted.
pub open spec fn resample_ready(
    src_len: int,
    src_w: int,
    src_h: int,
    dst_len: int,
    dst_w: int,
    dst_h: int,
) -> bool {
    &&& axis_ok(src_w, dst_w)
    &&& axis_ok(src_h, dst_h)
    &&& dims_ok(src_w, src_h)
    &&& dims_ok(dst_w, dst_h)
    &&& src_len == src_w * src_h * 4
    &&& dst_len == dst_w * dst_h * 4
}

/// Validates a call and checks the buffers' lengths against the dimensions.
pub fn check_call(
    src_addr: usize,
    src_len: usize,
    src_w: u32,
    src_h: u32,
    dst_addr: usize,
    dst_len: usize,
    dst_w: u32,
    dst_h: u32,
) -> (r: i32)
    ensures
        r == call_status(
            src_addr as int,
            src_len as int,
            src_w as int,
            src_h as int,
            dst_addr as int,
            dst_len as int,
            dst_w as int,
            dst_h as int,
        ),
        r == RESIZE_OK ==> resample_ready(
            src_len as int,
            src_w as int,
            src_h as int,
            dst_len as int,
            dst_w as int,
            dst_h as int,
        ),
{
    match validate_params(src_addr, src_w, src_h, dst_addr, dst_w, dst_h) {
        Err(e) => e,
        Ok((src_size, dst_size)) => {
            if src_len != src_size || dst_len != dst_size {
                RESIZE_ERR_MEMORY
            } else {
                assert(src_w <= MAX_DIMENSION && dst_w * dst_h <= MAX_PIXELS);
                RESIZE_OK
            }
        },
    }
}

} // verus!
