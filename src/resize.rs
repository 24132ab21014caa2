//! Resizing with the automatically selected algorithm.

use vstd::prelude::*;
use crate::bilinear::{bilinear_into, bilinear_pixel};
use crate::call::{call_status, check_call};
use crate::image::image_matches;
use crate::lanczos::{lanczos_into, lanczos_pixel};
use crate::nearest::{nearest_into, nearest_pixel};
use crate::select::{
    select_resize_algorithm, selected_algorithm, ALGORITHM_BILINEAR, ALGORITHM_NEAREST,
};
use crate::status::RESIZE_OK;

verus! {

/// The image that the automatically selected algorithm produces.
pub open spec fn auto_pixel(
    src: Seq<u8>,
    src_w: int,
    src_h: int,
    dst_w: int,
    dst_h: int,
) -> spec_fn(int, int, int) -> u8 {
    let a = selected_algorithm(src_w, src_h, dst_w, dst_h);
    if a == ALGORITHM_NEAREST {
        nearest_pixel(src, src_w, src_h, dst_w, dst_h)
    } else if a == ALGORITHM_BILINEAR {
        bilinear_pixel(src, src_w, src_h, dst_w, dst_h)
    } else {
        lanczos_pixel(src, src_w, src_h, dst_w, dst_h)
    }
}

/// Resizes with the algorithm that `select_resize_algorithm` picks for these
/// dimensions. Returns the call's status; on `RESIZE_OK` `dst` holds the
/// resampled image, otherwise it is untouched.
pub fn resize_rgba(
    src_addr: usize,
    src: &[u8],
    src_w: u32,
    src_h: u32,
    dst_addr: usize,
    dst: &mut [u8],
    dst_w: u32,
    dst_h: u32,
) -> (r: i32)
    ensures
        r == call_status(
            src_addr as int,
            src@.len() as int,
            src_w as int,
            src_h as int,
            dst_addr as int,
            old(dst)@.len() as int,
            dst_w as int,
            dst_h as int,
        ),
        r != RESIZE_OK ==> final(dst)@ == old(dst)@,
        r == RESIZE_OK ==> image_matches(
            final(dst)@,
            dst_w as int,
            dst_h as int,
            auto_pixel(src@, src_w as int, src_h as int, dst_w as int, dst_h as int),
        ),
{
    let status = check_call(src_addr, src.len(), src_w, src_h, dst_addr, dst.len(), dst_w, dst_h);
    if status != RESIZE_OK {
        return status;
    }
    let algorithm = select_resize_algorithm(src_w, src_h, dst_w, dst_h);
    if algorithm == ALGORITHM_NEAREST {
        nearest_into(src, src_w, src_h, dst, dst_w, dst_h);
    } else if algorithm == ALGORITHM_BILINEAR {
        bilinear_into(src, src_w, src_h, dst, dst_w, dst_h);
    } else {
        lanczos_into(src, src_w, src_h, dst, dst_w, dst_h);
    }
    RESIZE_OK
}

} // verus!
