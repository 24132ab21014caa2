//! Validation of a resize call's parameters: addresses, dimensions, limits and overlap.

use vstd::prelude::*;
use crate::status::{
    RESIZE_ERR_ALIGNMENT, RESIZE_ERR_INVALID_SIZE, RESIZE_ERR_NULL_PTR, RESIZE_ERR_OVERFLOW,
    RESIZE_ERR_OVERLAP,
};

verus! {

/// Largest accepted width or height.
pub const MAX_DIMENSION: u32 = 65535;

/// Largest accepted pixel count of one image (256 megapixels).
pub const MAX_PIXELS: u64 = 268_435_456;

/// Bytes of an RGBA image of the given dimensions.
pub open spec fn image_bytes(w: int, h: int) -> int {
    w * h * 4
}

/// End of a byte range, saturated at the top of the address space.
pub open spec fn range_end(start: int, len: int) -> int {
    if start + len > usize::MAX {
        usize::MAX as int
    } else {
        start + len
    }
}

/// Whether `[s, range_end(s, sl))` and `[d, range_end(d, dl))` intersect.
pub open spec fn ranges_overlap(s: int, sl: int, d: int, dl: int) -> bool {
    s < range_end(d, dl) && d < range_end(s, sl)
}

/// Whether one image's dimensions are within the limits.
pub open spec fn dims_in_limits(w: int, h: int) -> bool {
    w <= MAX_DIMENSION && h <= MAX_DIMENSION && w * h <= MAX_PIXELS
}

/// The status code that validation yields for these parameters, checking in
/// order: null addresses, alignment, zero dimensions, 64-bit overflow of the
/// byte counts, limits, and overlap. `None` when all checks pass.
pub open spec fn validation_error(
    src_addr: int,
    src_w: int,
    src_h: int,
    dst_addr: int,
    dst_w: int,
    dst_h: int,
) -> Option<i32> {
    if src_addr == 0 || dst_addr == 0 {
        Some(RESIZE_ERR_NULL_PTR)
    } else if src_addr % 4 != 0 || dst_addr % 4 != 0 {
        Some(RESIZE_ERR_ALIGNMENT)
    } else if src_w == 0 || src_h == 0 || dst_w == 0 || dst_h == 0 {
        Some(RESIZE_ERR_INVALID_SIZE)
    } else if image_bytes(src_w, src_h) > u64::MAX || image_bytes(dst_w, dst_h) > u64::MAX {
        Some(RESIZE_ERR_OVERFLOW)
    } else if !dims_in_limits(src_w, src_h) || !dims_in_limits(dst_w, dst_h) {
        Some(RESIZE_ERR_INVALID_SIZE)
    } else if ranges_overlap(
        src_addr,
        image_bytes(src_w, src_h),
        dst_addr,
        image_bytes(dst_w, dst_h),
    ) {
        Some(RESIZE_ERR_OVERLAP)
    } else {
        None
    }
}

/// Whether the parameters pass validation.
pub open spec fn params_valid(
    src_addr: int,
    src_w: int,
    src_h: int,
    dst_addr: int,
    dst_w: int,
    dst_h: int,
) -> bool {
    validation_error(src_addr, src_w, src_h, dst_addr, dst_w, dst_h) is None
}

proof fn lemma_valid_sizes(w: u32, h: u32)
    requires
        1 <= w <= MAX_DIMENSION,
        1 <= h <= MAX_DIMENSION,
        w * h <= MAX_PIXELS,
    ensures
        image_bytes(w as int, h as int) <= 4 * MAX_PIXELS,
        w as int <= w * h,
        h as int <= w * h,
{
    assert(w as int <= w * h) by (nonlinear_arith)
        requires
            1 <= w,
            1 <= h,
    ;
    assert(h as int <= w * h) by (nonlinear_arith)
        requires
            1 <= w,
            1 <= h,
    ;
}

/// `a * b` in 64 bits, `None` on overflow.
fn mul_u64(a: u64, b: u64) -> (r: Option<u64>)
    ensures
        r == (if a * b <= u64::MAX {
            Some((a * b) as u64)
        } else {
            None::<u64>
        }),
{
    a.checked_mul(b)
}

/// Byte count `w * h * 4` in 64 bits, `None` on overflow.
fn image_bytes_u64(w: u32, h: u32) -> (r: Option<u64>)
    ensures
        r == (if image_bytes(w as int, h as int) <= u64::MAX {
            Some(image_bytes(w as int, h as int) as u64)
        } else {
            None::<u64>
        }),
{
    match mul_u64(w as u64, h as u64) {
        Some(p) => {
            let r = mul_u64(p, 4);
            assert(image_bytes(w as int, h as int) == p * 4);
            r
        },
        None => {
            assert(image_bytes(w as int, h as int) > u64::MAX) by (nonlinear_arith)
                requires
                    w * h > u64::MAX,
            ;
            None
        },
    }
}

/// Checks the parameters of a resize call. On success returns the byte
/// lengths of the source and destination images; otherwise the status code
/// of the first failed check.
pub fn validate_params(
    src_addr: usize,
    src_w: u32,
    src_h: u32,
    dst_addr: usize,
    dst_w: u32,
    dst_h: u32,
) -> (r: Result<(usize, usize), i32>)
    ensures
        match r {
            Ok((s, d)) => {
                &&& params_valid(
                    src_addr as int,
                    src_w as int,
                    src_h as int,
                    dst_addr as int,
                    dst_w as int,
                    dst_h as int,
                )
                &&& s == image_bytes(src_w as int, src_h as int)
                &&& d == image_bytes(dst_w as int, dst_h as int)
            },
            Err(e) => validation_error(
                src_addr as int,
                src_w as int,
                src_h as int,
                dst_addr as int,
                dst_w as int,
                dst_h as int,
            ) == Some(e),
        },
{
    if src_addr == 0 || dst_addr == 0 {
        return Err(RESIZE_ERR_NULL_PTR);
    }
    if src_addr % 4 != 0 || dst_addr % 4 != 0 {
        return Err(RESIZE_ERR_ALIGNMENT);
    }
    if src_w == 0 || src_h == 0 || dst_w == 0 || dst_h == 0 {
        return Err(RESIZE_ERR_INVALID_SIZE);
    }
    let src_size = match image_bytes_u64(src_w, src_h) {
        Some(s) => s,
        None => return Err(RESIZE_ERR_OVERFLOW),
    };
    let dst_size = match image_bytes_u64(dst_w, dst_h) {
        Some(s) => s,
        None => return Err(RESIZE_ERR_OVERFLOW),
    };
    if src_w > MAX_DIMENSION || src_h > MAX_DIMENSION || dst_w > MAX_DIMENSION || dst_h
        > MAX_DIMENSION {
        return Err(RESIZE_ERR_INVALID_SIZE);
    }
    let src_pixels = (src_w as u64) * (src_h as u64);
    let dst_pixels = (dst_w as u64) * (dst_h as u64);
    if src_pixels > MAX_PIXELS || dst_pixels > MAX_PIXELS {
        return Err(RESIZE_ERR_INVALID_SIZE);
    }
    proof {
        lemma_valid_sizes(src_w, src_h);
        lemma_valid_sizes(dst_w, dst_h);
    }
    let src_len = src_size as usize;
    let dst_len = dst_size as usize;
    let src_end = src_addr.saturating_add(src_len);
    let dst_end = dst_addr.saturating_add(dst_len);
    if src_addr < dst_end && dst_addr < src_end {
        return Err(RESIZE_ERR_OVERLAP);
    }
    Ok((src_len, dst_len))
}

} // verus!
