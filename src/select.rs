//! Choice of resampling algorithm from the source and destination dimensions.

use vstd::prelude::*;

verus! {

/// Algorithm code of nearest-neighbour resampling.
pub const ALGORITHM_NEAREST: u32 = 0;

/// Algorithm code of bilinear resampling.
pub const ALGORITHM_BILINEAR: u32 = 1;

/// Algorithm code of Lanczos resampling.
pub const ALGORITHM_LANCZOS: u32 = 2;

/// Whether an axis shrinks by more than `factor` (`src > factor * dst`).
pub open spec fn shrinks_beyond(src: int, dst: int, factor: int) -> bool {
    src > dst * factor
}

/// Largest downscale factor still served by bilinear, by source pixel count.
pub open spec fn bilinear_limit(pixels: int) -> int {
    if pixels < 1_000_000 {
        8
    } else if pixels < 10_000_000 {
        4
    } else {
        2
    }
}

/// Largest downscale factor still served by Lanczos, by source pixel count.
pub open spec fn lanczos_limit(pixels: int) -> int {
    if pixels < 1_000_000 {
        4
    } else if pixels < 10_000_000 {
        2
    } else {
        1
    }
}

/// The selection policy: Lanczos when no axis shrinks; nearest-neighbour when
/// an axis shrinks by more than 8; otherwise the best algorithm whose limit
/// for this source size covers both axes, ties going to the better one.
pub open spec fn selected_algorithm(src_w: int, src_h: int, dst_w: int, dst_h: int) -> u32 {
    let pixels = src_w * src_h;
    if src_w <= dst_w && src_h <= dst_h {
        ALGORITHM_LANCZOS
    } else if shrinks_beyond(src_w, dst_w, 8) || shrinks_beyond(src_h, dst_h, 8) {
        ALGORITHM_NEAREST
    } else if !shrinks_beyond(src_w, dst_w, lanczos_limit(pixels)) && !shrinks_beyond(
        src_h,
        dst_h,
        lanczos_limit(pixels),
    ) {
        ALGORITHM_LANCZOS
    } else if !shrinks_beyond(src_w, dst_w, bilinear_limit(pixels)) && !shrinks_beyond(
        src_h,
        dst_h,
        bilinear_limit(pixels),
    ) {
        ALGORITHM_BILINEAR
    } else {
        ALGORITHM_NEAREST
    }
}

proof fn lemma_u32_product_fits(a: u32, b: u32)
    ensures
        (a as int) * (b as int) <= u64::MAX,
{
    assert((a as int) * (b as int) <= u32::MAX as int * u32::MAX as int) by (nonlinear_arith)
        requires
            0 <= a <= u32::MAX,
            0 <= b <= u32::MAX,
    ;
}

/// `src > dst * factor`, without overflow.
fn exceeds(src: u32, dst: u32, factor: u32) -> (r: bool)
    ensures
        r == shrinks_beyond(src as int, dst as int, factor as int),
{
    proof {
        lemma_u32_product_fits(dst, factor);
    }
    (src as u64) > (dst as u64) * (factor as u64)
}

/// Picks the resampling algorithm for a resize from `src_w x src_h` to
/// `dst_w x dst_h`: one of `ALGORITHM_NEAREST`, `ALGORITHM_BILINEAR`,
/// `ALGORITHM_LANCZOS`.
pub fn select_resize_algorithm(src_w: u32, src_h: u32, dst_w: u32, dst_h: u32) -> (r: u32)
    ensures
        r == selected_algorithm(src_w as int, src_h as int, dst_w as int, dst_h as int),
{
    if src_w <= dst_w && src_h <= dst_h {
        return ALGORITHM_LANCZOS;
    }
    if exceeds(src_w, dst_w, 8) || exceeds(src_h, dst_h, 8) {
        return ALGORITHM_NEAREST;
    }
    proof {
        lemma_u32_product_fits(src_w, src_h);
    }
    let src_pixels = (src_w as u64) * (src_h as u64);
    let (bilinear, lanczos) = if src_pixels < 1_000_000 {
        (8u32, 4u32)
    } else if src_pixels < 10_000_000 {
        (4u32, 2u32)
    } else {
        (2u32, 1u32)
    };
    if !exceeds(src_w, dst_w, lanczos) && !exceeds(src_h, dst_h, lanczos) {
        ALGORITHM_LANCZOS
    } else if !exceeds(src_w, dst_w, bilinear) && !exceeds(src_h, dst_h, bilinear) {
        ALGORITHM_BILINEAR
    } else {
        ALGORITHM_NEAREST
    }
}

/// Whether the selector picks nearest-neighbour for these dimensions.
pub fn should_use_nearest_neighbor(src_w: u32, src_h: u32, dst_w: u32, dst_h: u32) -> (r: bool)
    ensures
        r == (selected_algorithm(src_w as int, src_h as int, dst_w as int, dst_h as int)
            == ALGORITHM_NEAREST),
{
    select_resize_algorithm(src_w, src_h, dst_w, dst_h) == ALGORITHM_NEAREST
}

/// Whether one axis scales by a whole factor: the larger size is a multiple
/// of the smaller.
pub open spec fn whole_factor(src: int, dst: int) -> bool {
    if src >= dst {
        src % dst == 0
    } else {
        dst % src == 0
    }
}

/// For each axis, whether the scale factor is a whole number.
pub fn is_integer_scaling(src_w: u32, src_h: u32, dst_w: u32, dst_h: u32) -> (r: (bool, bool))
    requires
        src_w > 0,
        src_h > 0,
        dst_w > 0,
        dst_h > 0,
    ensures
        r.0 == whole_factor(src_w as int, dst_w as int),
        r.1 == whole_factor(src_h as int, dst_h as int),
{
    let x = if src_w >= dst_w {
        src_w % dst_w == 0
    } else {
        dst_w % src_w == 0
    };
    let y = if src_h >= dst_h {
        src_h % dst_h == 0
    } else {
        dst_h % src_h == 0
    };
    (x, y)
}

} // verus!
