//! Bilinear resampling with exact fractional weights.

use vstd::prelude::*;
use crate::axis::{
    coord_frac, lemma_coord_facts, linear_axis, linear_hi, linear_lo, linear_sample_is,
    LinearSample,
};
use crate::call::{call_status, check_call, resample_ready};
use crate::image::{
    channel, image_matches, lemma_index_bounds, lemma_next_row, lemma_written_all, put_pixel,
    written_before,
};
use crate::status::RESIZE_OK;

verus! {

/// `a + (t / n) * (b - a)` rounded down, for `0 <= t <= n`: a blend of `a`
/// and `b` at weight `t / n`.
pub open spec fn lerp(a: int, b: int, t: int, n: int) -> int {
    (a * (n - t) + b * t) / n
}

/// A blend lies between its two ends.
pub proof fn lemma_lerp_between(a: int, b: int, t: int, n: int)
    requires
        0 <= t <= n,
        0 < n,
    ensures
        a <= b ==> a <= lerp(a, b, t, n) <= b,
        b <= a ==> b <= lerp(a, b, t, n) <= a,
        lerp(a, a, t, n) == a,
        t == 0 ==> lerp(a, b, t, n) == a,
{
    let v = a * (n - t) + b * t;
    assert(a * (n - t) + a * t == a * n) by (nonlinear_arith);
    vstd::arithmetic::div_mod::lemma_div_multiples_vanish(a, n);
    vstd::arithmetic::div_mod::lemma_div_multiples_vanish(b, n);
    assert(a * n == n * a && b * n == n * b) by (nonlinear_arith);
    if a <= b {
        assert(a * n <= v <= b * n) by (nonlinear_arith)
            requires
                a <= b,
                0 <= t <= n,
                v == a * (n - t) + b * t,
        ;
        vstd::arithmetic::div_mod::lemma_div_is_ordered(a * n, v, n);
        vstd::arithmetic::div_mod::lemma_div_is_ordered(v, b * n, n);
    }
    if b <= a {
        assert(b * n <= v <= a * n) by (nonlinear_arith)
            requires
                b <= a,
                0 <= t <= n,
                v == a * (n - t) + b * t,
        ;
        vstd::arithmetic::div_mod::lemma_div_is_ordered(b * n, v, n);
        vstd::arithmetic::div_mod::lemma_div_is_ordered(v, a * n, n);
    }
}

/// Largest denominator of a blend weight.
pub const MAX_BLEND_DENOM: u64 = 1048576;

/// Exec form of `lerp` on bytes.
pub fn lerp_u8(a: u8, b: u8, t: u64, n: u64) -> (r: u8)
    requires
        0 <= t <= n <= MAX_BLEND_DENOM,
        0 < n,
    ensures
        r == lerp(a as int, b as int, t as int, n as int),
{
    proof {
        lemma_lerp_between(a as int, b as int, t as int, n as int);
        assert((a as int) * (n - t) <= 255 * MAX_BLEND_DENOM) by (nonlinear_arith)
            requires
                a <= 255,
                n - t <= MAX_BLEND_DENOM,
                t <= n,
        ;
        assert((b as int) * t <= 255 * MAX_BLEND_DENOM) by (nonlinear_arith)
            requires
                b <= 255,
                t <= MAX_BLEND_DENOM,
        ;
    }
    ((a as u64 * (n - t) + b as u64 * t) / n) as u8
}

/// Channel `c` of the bilinear blend of four pixels: horizontal blends of
/// the top pair and of the bottom pair at `tx / nx`, each rounded down, then
/// a vertical blend of the two at `ty / ny`.
pub open spec fn blend4(
    p00: int,
    p10: int,
    p01: int,
    p11: int,
    tx: int,
    nx: int,
    ty: int,
    ny: int,
) -> int {
    lerp(lerp(p00, p10, tx, nx), lerp(p01, p11, tx, nx), ty, ny)
}

/// Blends the four neighbours `p00` (top left), `p10` (top right), `p01`
/// (bottom left) and `p11` (bottom right) channel by channel, at horizontal
/// weight `tx / nx` and vertical weight `ty / ny`.
pub fn bilinear_interp_4_pixels(
    p00: [u8; 4],
    p10: [u8; 4],
    p01: [u8; 4],
    p11: [u8; 4],
    tx: u64,
    nx: u64,
    ty: u64,
    ny: u64,
) -> (r: [u8; 4])
    requires
        tx <= nx <= MAX_BLEND_DENOM,
        0 < nx,
        ty <= ny <= MAX_BLEND_DENOM,
        0 < ny,
    ensures
        forall|c: int|
            0 <= c < 4 ==> #[trigger] r@[c] == blend4(
                p00@[c] as int,
                p10@[c] as int,
                p01@[c] as int,
                p11@[c] as int,
                tx as int,
                nx as int,
                ty as int,
                ny as int,
            ),
{
    let mut r: [u8; 4] = [0u8; 4];
    let mut c: usize = 0;
    while c < 4
        invariant
            tx <= nx <= MAX_BLEND_DENOM,
        0 < nx,
            ty <= ny <= MAX_BLEND_DENOM,
        0 < ny,
            0 <= c <= 4,
            forall|k: int|
                0 <= k < c ==> #[trigger] r@[k] == blend4(
                    p00@[k] as int,
                    p10@[k] as int,
                    p01@[k] as int,
                    p11@[k] as int,
                    tx as int,
                    nx as int,
                    ty as int,
                    ny as int,
                ),
        decreases 4 - c,
    {
        let top = lerp_u8(p00[c], p10[c], tx, nx);
        let bottom = lerp_u8(p01[c], p11[c], tx, nx);
        r[c] = lerp_u8(top, bottom, ty, ny);
        c = c + 1;
    }
    r
}

/// The bilinear image: channel `c` of pixel `(x, y)` blends the source
/// pixels at the bilinear pairs of `x` and `y`, at the fractional parts of
/// their source coordinates.
pub open spec fn bilinear_pixel(
    src: Seq<u8>,
    src_w: int,
    src_h: int,
    dst_w: int,
    dst_h: int,
) -> spec_fn(int, int, int) -> u8 {
    |x: int, y: int, c: int|
        {
            let x0 = linear_lo(src_w, dst_w, x);
            let x1 = linear_hi(src_w, dst_w, x);
            let y0 = linear_lo(src_h, dst_h, y);
            let y1 = linear_hi(src_h, dst_h, y);
            blend4(
                channel(src, src_w, x0, y0, c) as int,
                channel(src, src_w, x1, y0, c) as int,
                channel(src, src_w, x0, y1, c) as int,
                channel(src, src_w, x1, y1, c) as int,
                coord_frac(src_w, dst_w, x),
                2 * dst_w,
                coord_frac(src_h, dst_h, y),
                2 * dst_h,
            ) as u8
        }
}

/// The source pixel `(x, y)` of a `w`-wide image as four bytes.
pub fn read_pixel(src: &[u8], w: usize, h: usize, x: usize, y: usize) -> (r: [u8; 4])
    requires
        crate::image::dims_ok(w as int, h as int),
        src@.len() == w * h * 4,
        x < w,
        y < h,
    ensures
        forall|c: int| 0 <= c < 4 ==> #[trigger] r@[c] == channel(src@, w as int, x as int, y as int, c),
{
    proof {
        lemma_index_bounds(w as int, h as int, x as int, y as int, 3);
    }
    let base = (y * w + x) * 4;
    let r: [u8; 4] = [src[base], src[base + 1], src[base + 2], src[base + 3]];
    proof {
        assert forall|c: int| 0 <= c < 4 implies #[trigger] r@[c] == channel(
            src@,
            w as int,
            x as int,
            y as int,
            c,
        ) by {
            lemma_index_bounds(w as int, h as int, x as int, y as int, c);
        }
    }
    r
}

/// Fills `dst` with the bilinear resampling of `src`.
pub fn bilinear_into(src: &[u8], src_w: u32, src_h: u32, dst: &mut [u8], dst_w: u32, dst_h: u32)
    requires
        resample_ready(
            src@.len() as int,
            src_w as int,
            src_h as int,
            old(dst)@.len() as int,
            dst_w as int,
            dst_h as int,
        ),
    ensures
        image_matches(
            final(dst)@,
            dst_w as int,
            dst_h as int,
            bilinear_pixel(src@, src_w as int, src_h as int, dst_w as int, dst_h as int),
        ),
{
    let ghost f = bilinear_pixel(src@, src_w as int, src_h as int, dst_w as int, dst_h as int);
    let xs = linear_axis(src_w, dst_w);
    let ys = linear_axis(src_h, dst_h);
    let sw = src_w as usize;
    let sh = src_h as usize;
    let dw = dst_w as usize;
    let dh = dst_h as usize;
    let x_den = 2 * dst_w as u64;
    let y_den = 2 * dst_h as u64;
    let mut y: usize = 0;
    while y < dh
        invariant
            resample_ready(
                src@.len() as int,
                src_w as int,
                src_h as int,
                dst@.len() as int,
                dst_w as int,
                dst_h as int,
            ),
            sw == src_w,
            sh == src_h,
            dw == dst_w,
            dh == dst_h,
            x_den == 2 * dst_w,
            y_den == 2 * dst_h,
            xs@.len() == dst_w,
            ys@.len() == dst_h,
            forall|i: int|
                0 <= i < dst_w ==> linear_sample_is(
                    #[trigger] xs@[i],
                    src_w as int,
                    dst_w as int,
                    i,
                ),
            forall|i: int|
                0 <= i < dst_h ==> linear_sample_is(
                    #[trigger] ys@[i],
                    src_h as int,
                    dst_h as int,
                    i,
                ),
            f == bilinear_pixel(src@, src_w as int, src_h as int, dst_w as int, dst_h as int),
            0 <= y <= dh,
            written_before(dst@, dw as int, f, 0, y as int),
        decreases dh - y,
    {
        let ly: LinearSample = ys[y];
        proof {
            assert(linear_sample_is(ys@[y as int], src_h as int, dst_h as int, y as int));
            lemma_coord_facts(src_h as int, dst_h as int, y as int);
        }
        let mut x: usize = 0;
        while x < dw
            invariant
                resample_ready(
                    src@.len() as int,
                    src_w as int,
                    src_h as int,
                    dst@.len() as int,
                    dst_w as int,
                    dst_h as int,
                ),
                sw == src_w,
                sh == src_h,
                dw == dst_w,
                dh == dst_h,
                x_den == 2 * dst_w,
                y_den == 2 * dst_h,
                xs@.len() == dst_w,
                forall|i: int|
                    0 <= i < dst_w ==> linear_sample_is(
                        #[trigger] xs@[i],
                        src_w as int,
                        dst_w as int,
                        i,
                    ),
                linear_sample_is(ly, src_h as int, dst_h as int, y as int),
                ly.lo < sh && ly.hi < sh && ly.frac < y_den,
                f == bilinear_pixel(src@, src_w as int, src_h as int, dst_w as int, dst_h as int),
                0 <= y < dh,
                0 <= x <= dw,
                written_before(dst@, dw as int, f, x as int, y as int),
            decreases dw - x,
        {
            let lx: LinearSample = xs[x];
            proof {
                assert(linear_sample_is(xs@[x as int], src_w as int, dst_w as int, x as int));
                lemma_coord_facts(src_w as int, dst_w as int, x as int);
            }
            let p00 = read_pixel(src, sw, sh, lx.lo, ly.lo);
            let p10 = read_pixel(src, sw, sh, lx.hi, ly.lo);
            let p01 = read_pixel(src, sw, sh, lx.lo, ly.hi);
            let p11 = read_pixel(src, sw, sh, lx.hi, ly.hi);
            let px = bilinear_interp_4_pixels(p00, p10, p01, p11, lx.frac, x_den, ly.frac, y_den);
            proof {
                assert forall|c: int| 0 <= c < 4 implies px@[c] == f(x as int, y as int, c) by {
                    assert(px@[c] == blend4(
                        p00@[c] as int,
                        p10@[c] as int,
                        p01@[c] as int,
                        p11@[c] as int,
                        lx.frac as int,
                        x_den as int,
                        ly.frac as int,
                        y_den as int,
                    ));
                    assert(p00@[c] == channel(src@, sw as int, lx.lo as int, ly.lo as int, c));
                    assert(p10@[c] == channel(src@, sw as int, lx.hi as int, ly.lo as int, c));
                    assert(p01@[c] == channel(src@, sw as int, lx.lo as int, ly.hi as int, c));
                    assert(p11@[c] == channel(src@, sw as int, lx.hi as int, ly.hi as int, c));
                }
            }
            put_pixel(dst, dw, dh, x, y, px, Ghost(f));
            x = x + 1;
        }
        proof {
            lemma_next_row(dst@, dw as int, f, y as int);
        }
        y = y + 1;
    }
    proof {
        lemma_written_all(dst@, dw as int, dh as int, f);
    }
}

/// Resizes with bilinear interpolation. Returns the call's status; on
/// `RESIZE_OK` `dst` holds the resampled image, otherwise it is untouched.
pub fn resize_rgba_bilinear(
    src_addr: usize,
    src: &[u8],
    src_w: u32,
    src_h: u32,
    dst_addr: usize,
    dst: &mut [u8],
    dst_w: u32,
    dst_h: u32,
) -> (r: i32)
    ensures
        r == call_status(
            src_addr as int,
            src@.len() as int,
            src_w as int,
            src_h as int,
            dst_addr as int,
            old(dst)@.len() as int,
            dst_w as int,
            dst_h as int,
        ),
        r != RESIZE_OK ==> final(dst)@ == old(dst)@,
        r == RESIZE_OK ==> image_matches(
            final(dst)@,
            dst_w as int,
            dst_h as int,
            bilinear_pixel(src@, src_w as int, src_h as int, dst_w as int, dst_h as int),
        ),
{
    let status = check_call(src_addr, src.len(), src_w, src_h, dst_addr, dst.len(), dst_w, dst_h);
    if status != RESIZE_OK {
        return status;
    }
    bilinear_into(src, src_w, src_h, dst, dst_w, dst_h);
    RESIZE_OK
}

} // verus!
