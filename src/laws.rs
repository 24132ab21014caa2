//! Properties of validation and of nearest-neighbour and bilinear resampling.

use vstd::prelude::*;
use crate::axis::{
    axis_ok, coord_floor, coord_frac, coord_num, lemma_coord_facts, linear_hi, linear_lo,
    nearest_source,
};
use crate::bilinear::{bilinear_pixel, blend4, lemma_lerp_between};
use crate::call::call_status;
use crate::gamma::{level_encode, srgb_decode, LINEAR_PER_LEVEL};
use crate::gamma_bilinear::{encoded_of, gamma_bilinear_pixel, linear_of};
use crate::image::{channel, dims_ok, image_matches, in_image, index_of};
use crate::nearest::nearest_pixel;
use crate::status::{RESIZE_ERR_INVALID_SIZE, RESIZE_ERR_OVERLAP, RESIZE_OK};
use crate::validate::{
    image_bytes, params_valid, ranges_overlap, MAX_DIMENSION, MAX_PIXELS,
};

verus! {

/// Whether every pixel of the `w x h` image `img` is `px`.
pub open spec fn is_solid(img: Seq<u8>, w: int, h: int, px: Seq<u8>) -> bool {
    &&& img.len() == w * h * 4
    &&& px.len() == 4
    &&& forall|x: int, y: int, c: int| in_image(w, h, x, y, c) ==> #[trigger] channel(img, w, x, y, c) == px[c]
}

/// Two images that hold the same pixel function are equal.
pub proof fn lemma_image_unique(
    a: Seq<u8>,
    b: Seq<u8>,
    w: int,
    h: int,
    f: spec_fn(int, int, int) -> u8,
)
    requires
        dims_ok(w, h),
        image_matches(a, w, h, f),
        image_matches(b, w, h, f),
    ensures
        a == b,
{
    assert forall|k: int| 0 <= k < a.len() implies a[k] == b[k] by {
        let p = k / 4;
        let c = k % 4;
        let x = p % w;
        let y = p / w;
        vstd::arithmetic::div_mod::lemma_fundamental_div_mod(k, 4);
        vstd::arithmetic::div_mod::lemma_fundamental_div_mod(p, w);
        vstd::arithmetic::div_mod::lemma_mod_bound(k, 4);
        vstd::arithmetic::div_mod::lemma_mod_bound(p, w);
        vstd::arithmetic::div_mod::lemma_div_pos_is_pos(k, 4);
        vstd::arithmetic::div_mod::lemma_div_pos_is_pos(p, w);
        assert(index_of(w, x, y, c) == k) by (nonlinear_arith)
            requires
                k == 4 * p + c,
                p == w * y + x,
        ;
        assert(y < h) by (nonlinear_arith)
            requires
                k < w * h * 4,
                k == 4 * p + c,
                p == w * y + x,
                0 <= x,
                0 <= c,
                w >= 1,
        ;
        assert(in_image(w, h, x, y, c));
    }
    assert(a =~= b);
}

/// A call whose parameters pass validation, on buffers of the lengths that
/// the dimensions call for, succeeds: every entry point then returns
/// `RESIZE_OK` and fills all `dst_w * dst_h * 4` bytes.
pub proof fn lemma_valid_call_succeeds(
    src_addr: int,
    src_len: int,
    src_w: int,
    src_h: int,
    dst_addr: int,
    dst_len: int,
    dst_w: int,
    dst_h: int,
)
    requires
        params_valid(src_addr, src_w, src_h, dst_addr, dst_w, dst_h),
        src_len == image_bytes(src_w, src_h),
        dst_len == image_bytes(dst_w, dst_h),
    ensures
        call_status(src_addr, src_len, src_w, src_h, dst_addr, dst_len, dst_w, dst_h)
            == RESIZE_OK,
{
}

/// Non-null, aligned buffer addresses.
pub open spec fn addrs_ok(src_addr: int, dst_addr: int) -> bool {
    src_addr != 0 && dst_addr != 0 && src_addr % 4 == 0 && dst_addr % 4 == 0
}

/// A destination width of zero is rejected as an invalid size.
pub proof fn lemma_zero_width_rejected(
    src_addr: int,
    src_len: int,
    src_w: int,
    src_h: int,
    dst_addr: int,
    dst_len: int,
    dst_h: int,
)
    requires
        addrs_ok(src_addr, dst_addr),
    ensures
        call_status(src_addr, src_len, src_w, src_h, dst_addr, dst_len, 0, dst_h)
            == RESIZE_ERR_INVALID_SIZE,
{
}

/// An image of more than 256 megapixels is rejected as an invalid size
/// (when its byte count fits in 64 bits; beyond that it is an overflow).
pub proof fn lemma_too_many_pixels_rejected(
    src_addr: int,
    src_len: int,
    src_w: int,
    src_h: int,
    dst_addr: int,
    dst_len: int,
    dst_w: int,
    dst_h: int,
)
    requires
        addrs_ok(src_addr, dst_addr),
        1 <= src_w,
        1 <= src_h,
        1 <= dst_w,
        1 <= dst_h,
        image_bytes(src_w, src_h) <= u64::MAX,
        image_bytes(dst_w, dst_h) <= u64::MAX,
        src_w * src_h > MAX_PIXELS || dst_w * dst_h > MAX_PIXELS,
    ensures
        call_status(src_addr, src_len, src_w, src_h, dst_addr, dst_len, dst_w, dst_h)
            == RESIZE_ERR_INVALID_SIZE,
{
}

/// Overlapping source and destination byte ranges are rejected.
pub proof fn lemma_overlap_rejected(
    src_addr: int,
    src_len: int,
    src_w: int,
    src_h: int,
    dst_addr: int,
    dst_len: int,
    dst_w: int,
    dst_h: int,
)
    requires
        addrs_ok(src_addr, dst_addr),
        1 <= src_w <= MAX_DIMENSION,
        1 <= src_h <= MAX_DIMENSION,
        1 <= dst_w <= MAX_DIMENSION,
        1 <= dst_h <= MAX_DIMENSION,
        src_w * src_h <= MAX_PIXELS,
        dst_w * dst_h <= MAX_PIXELS,
        ranges_overlap(src_addr, image_bytes(src_w, src_h), dst_addr, image_bytes(dst_w, dst_h)),
    ensures
        call_status(src_addr, src_len, src_w, src_h, dst_addr, dst_len, dst_w, dst_h)
            == RESIZE_ERR_OVERLAP,
{
    assert(image_bytes(src_w, src_h) <= u64::MAX && image_bytes(dst_w, dst_h) <= u64::MAX)
        by (nonlinear_arith)
        requires
            src_w * src_h <= MAX_PIXELS,
            dst_w * dst_h <= MAX_PIXELS,
    ;
}

/// Along an axis resized to its own size, destination sample `i` sits
/// exactly on source sample `i`.
pub proof fn lemma_same_size_axis(s: int, i: int)
    requires
        axis_ok(s, s),
        0 <= i < s,
    ensures
        coord_floor(s, s, i) == i,
        coord_frac(s, s, i) == 0,
        linear_lo(s, s, i) == i,
        nearest_source(s, s, i) == i,
{
    assert(coord_num(s, s, i) == i * (2 * s)) by (nonlinear_arith);
    vstd::arithmetic::div_mod::lemma_fundamental_div_mod_converse(i * (2 * s), 2 * s, i, 0);
    assert((2 * i + 1) * s == i * (2 * s) + s) by (nonlinear_arith);
    vstd::arithmetic::div_mod::lemma_fundamental_div_mod_converse(
        (2 * i + 1) * s,
        2 * s,
        i,
        s,
    );
}

/// Resizing to the same dimensions with bilinear interpolation reproduces
/// the source exactly.
pub proof fn lemma_bilinear_identity(src: Seq<u8>, w: int, h: int, out: Seq<u8>)
    requires
        axis_ok(w, w),
        axis_ok(h, h),
        dims_ok(w, h),
        src.len() == w * h * 4,
        image_matches(out, w, h, bilinear_pixel(src, w, h, w, h)),
    ensures
        out == src,
{
    let f = bilinear_pixel(src, w, h, w, h);
    assert forall|x: int, y: int, c: int| in_image(w, h, x, y, c) implies src[#[trigger] index_of(
        w,
        x,
        y,
        c,
    )] == f(x, y, c) by {
        lemma_same_size_axis(w, x);
        lemma_same_size_axis(h, y);
        let a = channel(src, w, x, y, c) as int;
        let b = channel(src, w, linear_hi(w, w, x), y, c) as int;
        let a2 = channel(src, w, x, linear_hi(h, h, y), c) as int;
        let b2 = channel(src, w, linear_hi(w, w, x), linear_hi(h, h, y), c) as int;
        lemma_lerp_between(a, b, 0, 2 * w);
        lemma_lerp_between(a2, b2, 0, 2 * w);
        lemma_lerp_between(
            crate::bilinear::lerp(a, b, 0, 2 * w),
            crate::bilinear::lerp(a2, b2, 0, 2 * w),
            0,
            2 * h,
        );
    }
    lemma_image_unique(out, src, w, h, f);
}

/// Resizing a single-colour image with nearest-neighbour sampling yields an
/// image of that colour only.
pub proof fn lemma_nearest_solid(
    src: Seq<u8>,
    src_w: int,
    src_h: int,
    dst_w: int,
    dst_h: int,
    px: Seq<u8>,
    out: Seq<u8>,
)
    requires
        axis_ok(src_w, dst_w),
        axis_ok(src_h, dst_h),
        dims_ok(src_w, src_h),
        is_solid(src, src_w, src_h, px),
        image_matches(out, dst_w, dst_h, nearest_pixel(src, src_w, src_h, dst_w, dst_h)),
    ensures
        is_solid(out, dst_w, dst_h, px),
{
    assert forall|x: int, y: int, c: int| in_image(dst_w, dst_h, x, y, c) implies #[trigger] channel(
        out,
        dst_w,
        x,
        y,
        c,
    ) == px[c] by {
        lemma_coord_facts(src_w, dst_w, x);
        lemma_coord_facts(src_h, dst_h, y);
        let nx = nearest_source(src_w, dst_w, x);
        let ny = nearest_source(src_h, dst_h, y);
        assert(in_image(src_w, src_h, nx, ny, c));
        assert(channel(src, src_w, nx, ny, c) == px[c]);
        assert(out[index_of(dst_w, x, y, c)] == nearest_pixel(src, src_w, src_h, dst_w, dst_h)(
            x,
            y,
            c,
        ));
    }
}

/// Channel `c` of each of the two bilinear pairs lies in the source image.
proof fn lemma_pairs_in_image(src_w: int, src_h: int, dst_w: int, dst_h: int, x: int, y: int, c: int)
    requires
        axis_ok(src_w, dst_w),
        axis_ok(src_h, dst_h),
        in_image(dst_w, dst_h, x, y, c),
    ensures
        in_image(src_w, src_h, linear_lo(src_w, dst_w, x), linear_lo(src_h, dst_h, y), c),
        in_image(src_w, src_h, linear_hi(src_w, dst_w, x), linear_lo(src_h, dst_h, y), c),
        in_image(src_w, src_h, linear_lo(src_w, dst_w, x), linear_hi(src_h, dst_h, y), c),
        in_image(src_w, src_h, linear_hi(src_w, dst_w, x), linear_hi(src_h, dst_h, y), c),
        0 <= coord_frac(src_w, dst_w, x) < 2 * dst_w,
        0 <= coord_frac(src_h, dst_h, y) < 2 * dst_h,
{
    lemma_coord_facts(src_w, dst_w, x);
    lemma_coord_facts(src_h, dst_h, y);
}

/// Blending four equal values gives that value back.
proof fn lemma_blend_flat(v: int, tx: int, nx: int, ty: int, ny: int)
    requires
        0 <= tx <= nx,
        0 < nx,
        0 <= ty <= ny,
        0 < ny,
    ensures
        blend4(v, v, v, v, tx, nx, ty, ny) == v,
{
    lemma_lerp_between(v, v, tx, nx);
    lemma_lerp_between(v, v, ty, ny);
}

/// Resizing a single-colour image with bilinear interpolation yields an
/// image of that colour only.
pub proof fn lemma_bilinear_solid(
    src: Seq<u8>,
    src_w: int,
    src_h: int,
    dst_w: int,
    dst_h: int,
    px: Seq<u8>,
    out: Seq<u8>,
)
    requires
        axis_ok(src_w, dst_w),
        axis_ok(src_h, dst_h),
        dims_ok(src_w, src_h),
        is_solid(src, src_w, src_h, px),
        image_matches(out, dst_w, dst_h, bilinear_pixel(src, src_w, src_h, dst_w, dst_h)),
    ensures
        is_solid(out, dst_w, dst_h, px),
{
    assert forall|x: int, y: int, c: int| in_image(dst_w, dst_h, x, y, c) implies #[trigger] channel(
        out,
        dst_w,
        x,
        y,
        c,
    ) == px[c] by {
        lemma_pairs_in_image(src_w, src_h, dst_w, dst_h, x, y, c);
        let x0 = linear_lo(src_w, dst_w, x);
        let x1 = linear_hi(src_w, dst_w, x);
        let y0 = linear_lo(src_h, dst_h, y);
        let y1 = linear_hi(src_h, dst_h, y);
        assert(channel(src, src_w, x0, y0, c) == px[c]);
        assert(channel(src, src_w, x1, y0, c) == px[c]);
        assert(channel(src, src_w, x0, y1, c) == px[c]);
        assert(channel(src, src_w, x1, y1, c) == px[c]);
        lemma_blend_flat(
            px[c] as int,
            coord_frac(src_w, dst_w, x),
            2 * dst_w,
            coord_frac(src_h, dst_h, y),
            2 * dst_h,
        );
        assert(out[index_of(dst_w, x, y, c)] == bilinear_pixel(src, src_w, src_h, dst_w, dst_h)(
            x,
            y,
            c,
        ));
    }
}

/// Whether the colour channels of `px` survive the trip through the gamma
/// tables: decoding, then encoding at the quantisation level reached.
pub open spec fn survives_gamma_tables(px: Seq<u8>) -> bool {
    forall|c: int|
        0 <= c < 3 ==> level_encode(srgb_decode(#[trigger] px[c] as int) / LINEAR_PER_LEVEL as int)
            == px[c]
}

/// Resizing a single-colour image with gamma-correct bilinear interpolation
/// yields an image of that colour only, for the colours whose channels
/// survive the 256-level encoding table.
pub proof fn lemma_gamma_bilinear_solid(
    src: Seq<u8>,
    src_w: int,
    src_h: int,
    dst_w: int,
    dst_h: int,
    px: Seq<u8>,
    out: Seq<u8>,
)
    requires
        axis_ok(src_w, dst_w),
        axis_ok(src_h, dst_h),
        dims_ok(src_w, src_h),
        is_solid(src, src_w, src_h, px),
        survives_gamma_tables(px),
        image_matches(out, dst_w, dst_h, gamma_bilinear_pixel(src, src_w, src_h, dst_w, dst_h)),
    ensures
        is_solid(out, dst_w, dst_h, px),
{
    assert forall|x: int, y: int, c: int| in_image(dst_w, dst_h, x, y, c) implies #[trigger] channel(
        out,
        dst_w,
        x,
        y,
        c,
    ) == px[c] by {
        lemma_pairs_in_image(src_w, src_h, dst_w, dst_h, x, y, c);
        let x0 = linear_lo(src_w, dst_w, x);
        let x1 = linear_hi(src_w, dst_w, x);
        let y0 = linear_lo(src_h, dst_h, y);
        let y1 = linear_hi(src_h, dst_h, y);
        assert(channel(src, src_w, x0, y0, c) == px[c]);
        assert(channel(src, src_w, x1, y0, c) == px[c]);
        assert(channel(src, src_w, x0, y1, c) == px[c]);
        assert(channel(src, src_w, x1, y1, c) == px[c]);
        let v = linear_of(px[c] as int, c);
        lemma_blend_flat(
            v,
            coord_frac(src_w, dst_w, x),
            2 * dst_w,
            coord_frac(src_h, dst_h, y),
            2 * dst_h,
        );
        if c == 3 {
            vstd::arithmetic::div_mod::lemma_div_multiples_vanish(px[c] as int, 257);
            assert(v == 257 * (px[c] as int));
        }
        assert(encoded_of(v, c) == px[c]);
        assert(out[index_of(dst_w, x, y, c)] == gamma_bilinear_pixel(
            src,
            src_w,
            src_h,
            dst_w,
            dst_h,
        )(x, y, c));
    }
}

} // verus!
