//! Nearest-neighbour resampling.

use vstd::prelude::*;
use crate::axis::{nearest_axis, nearest_source};
use crate::call::{call_status, check_call, resample_ready};
use crate::image::{
    image_matches, index_of, lemma_index_bounds, lemma_next_row, lemma_written_all, put_pixel,
    written_before,
};
use crate::status::RESIZE_OK;

verus! {

/// The nearest-neighbour image: each destination pixel is a verbatim copy of
/// source pixel `(nearest_source(x), nearest_source(y))`.
pub open spec fn nearest_pixel(
    src: Seq<u8>,
    src_w: int,
    src_h: int,
    dst_w: int,
    dst_h: int,
) -> spec_fn(int, int, int) -> u8 {
    |x: int, y: int, c: int|
        src[index_of(
            src_w,
            nearest_source(src_w, dst_w, x),
            nearest_source(src_h, dst_h, y),
            c,
        )]
}

/// Fills `dst` with the nearest-neighbour resampling of `src`.
pub fn nearest_into(src: &[u8], src_w: u32, src_h: u32, dst: &mut [u8], dst_w: u32, dst_h: u32)
    requires
        resample_ready(
            src@.len() as int,
            src_w as int,
            src_h as int,
            old(dst)@.len() as int,
            dst_w as int,
            dst_h as int,
        ),
    ensures
        image_matches(
            final(dst)@,
            dst_w as int,
            dst_h as int,
            nearest_pixel(src@, src_w as int, src_h as int, dst_w as int, dst_h as int),
        ),
{
    let ghost f = nearest_pixel(src@, src_w as int, src_h as int, dst_w as int, dst_h as int);
    let xs = nearest_axis(src_w, dst_w);
    let ys = nearest_axis(src_h, dst_h);
    let sw = src_w as usize;
    let dw = dst_w as usize;
    let dh = dst_h as usize;
    let mut y: usize = 0;
    while y < dh
        invariant
            resample_ready(
                src@.len() as int,
                src_w as int,
                src_h as int,
                dst@.len() as int,
                dst_w as int,
                dst_h as int,
            ),
            sw == src_w,
            dw == dst_w,
            dh == dst_h,
            xs@.len() == dst_w,
            ys@.len() == dst_h,
            forall|i: int|
                0 <= i < dst_w ==> #[trigger] xs@[i] == nearest_source(src_w as int, dst_w as int, i),
            forall|i: int|
                0 <= i < dst_h ==> #[trigger] ys@[i] == nearest_source(src_h as int, dst_h as int, i),
            f == nearest_pixel(src@, src_w as int, src_h as int, dst_w as int, dst_h as int),
            0 <= y <= dh,
            written_before(dst@, dw as int, f, 0, y as int),
        decreases dh - y,
    {
        let sy = ys[y];
        let mut x: usize = 0;
        while x < dw
            invariant
                resample_ready(
                    src@.len() as int,
                    src_w as int,
                    src_h as int,
                    dst@.len() as int,
                    dst_w as int,
                    dst_h as int,
                ),
                sw == src_w,
                dw == dst_w,
                dh == dst_h,
                xs@.len() == dst_w,
                forall|i: int|
                    0 <= i < dst_w ==> #[trigger] xs@[i] == nearest_source(
                        src_w as int,
                        dst_w as int,
                        i,
                    ),
                sy == nearest_source(src_h as int, dst_h as int, y as int),
                f == nearest_pixel(src@, src_w as int, src_h as int, dst_w as int, dst_h as int),
                0 <= y < dh,
                0 <= x <= dw,
                written_before(dst@, dw as int, f, x as int, y as int),
            decreases dw - x,
        {
            let sx = xs[x];
            proof {
                crate::axis::lemma_coord_facts(src_w as int, dst_w as int, x as int);
                crate::axis::lemma_coord_facts(src_h as int, dst_h as int, y as int);
                lemma_index_bounds(sw as int, src_h as int, sx as int, sy as int, 3);
            }
            let base = (sy * sw + sx) * 4;
            let px: [u8; 4] = [src[base], src[base + 1], src[base + 2], src[base + 3]];
            proof {
                assert forall|c: int| 0 <= c < 4 implies px@[c] == f(x as int, y as int, c) by {
                    lemma_index_bounds(sw as int, src_h as int, sx as int, sy as int, c);
                }
            }
            put_pixel(dst, dw, dh, x, y, px, Ghost(f));
            x = x + 1;
        }
        proof {
            lemma_next_row(dst@, dw as int, f, y as int);
        }
        y = y + 1;
    }
    proof {
        lemma_written_all(dst@, dw as int, dh as int, f);
    }
}

/// Resizes with nearest-neighbour sampling. Returns the call's status; on
/// `RESIZE_OK` `dst` holds the resampled image, otherwise it is untouched.
pub fn resize_rgba_nearest(
    src_addr: usize,
    src: &[u8],
    src_w: u32,
    src_h: u32,
    dst_addr: usize,
    dst: &mut [u8],
    dst_w: u32,
    dst_h: u32,
) -> (r: i32)
    ensures
        r == call_status(
            src_addr as int,
            src@.len() as int,
            src_w as int,
            src_h as int,
            dst_addr as int,
            old(dst)@.len() as int,
            dst_w as int,
            dst_h as int,
        ),
        r != RESIZE_OK ==> final(dst)@ == old(dst)@,
        r == RESIZE_OK ==> image_matches(
            final(dst)@,
            dst_w as int,
            dst_h as int,
            nearest_pixel(src@, src_w as int, src_h as int, dst_w as int, dst_h as int),
        ),
{
    let status = check_call(src_addr, src.len(), src_w, src_h, dst_addr, dst.len(), dst_w, dst_h);
    if status != RESIZE_OK {
        return status;
    }
    nearest_into(src, src_w, src_h, dst, dst_w, dst_h);
    RESIZE_OK
}

} // verus!
