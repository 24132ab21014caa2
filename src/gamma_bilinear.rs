//! Bilinear resampling in linear light.

use vstd::prelude::*;
use crate::axis::{coord_frac, lemma_coord_facts, linear_axis, linear_hi, linear_lo, linear_sample_is, LinearSample};
use crate::bilinear::{blend4, lemma_lerp_between, lerp, read_pixel, MAX_BLEND_DENOM};
use crate::call::{call_status, check_call, resample_ready};
use crate::gamma::{
    alpha_linear, init_gamma_luts, level_encode, srgb_decode, GammaTables, LINEAR_ONE,
    LINEAR_PER_LEVEL,
};
use crate::image::{
    channel, image_matches, lemma_next_row, lemma_written_all, put_pixel, written_before,
};
use crate::status::RESIZE_OK;

verus! {

/// Linear value of byte `v` of channel `c`: colour channels are decoded from
/// sRGB, alpha is taken as already linear.
pub open spec fn linear_of(v: int, c: int) -> int {
    if c == 3 {
        alpha_linear(v)
    } else {
        srgb_decode(v)
    }
}

/// Byte of the linear value `v` of channel `c`: colour channels go through
/// the encoding table at level `v / 257`, alpha is rounded down to a byte.
pub open spec fn encoded_of(v: int, c: int) -> int {
    if c == 3 {
        v / LINEAR_PER_LEVEL as int
    } else {
        level_encode(v / LINEAR_PER_LEVEL as int)
    }
}

/// Channel `c` of the gamma-correct blend of four pixels' bytes.
pub open spec fn gamma_blend(
    p00: int,
    p10: int,
    p01: int,
    p11: int,
    c: int,
    tx: int,
    nx: int,
    ty: int,
    ny: int,
) -> int {
    encoded_of(
        blend4(
            linear_of(p00, c),
            linear_of(p10, c),
            linear_of(p01, c),
            linear_of(p11, c),
            tx,
            nx,
            ty,
            ny,
        ),
        c,
    )
}

fn lerp_linear(a: u32, b: u32, t: u64, n: u64) -> (r: u32)
    requires
        a <= LINEAR_ONE,
        b <= LINEAR_ONE,
        0 <= t <= n <= MAX_BLEND_DENOM,
        0 < n,
    ensures
        r == lerp(a as int, b as int, t as int, n as int),
        r <= LINEAR_ONE,
{
    proof {
        lemma_lerp_between(a as int, b as int, t as int, n as int);
        assert((a as int) * (n - t) <= 65535 * MAX_BLEND_DENOM) by (nonlinear_arith)
            requires
                a <= 65535,
                n - t <= MAX_BLEND_DENOM,
                t <= n,
        ;
        assert((b as int) * t <= 65535 * MAX_BLEND_DENOM) by (nonlinear_arith)
            requires
                b <= 65535,
                t <= MAX_BLEND_DENOM,
        ;
    }
    ((a as u64 * (n - t) + b as u64 * t) / n) as u32
}

/// Converts four RGBA pixels (16 bytes of `px` from `off`) to linear values:
/// colour channels through the decoding table, alpha as already linear.
pub fn srgb_to_linear_simd_4pixels(tables: &GammaTables, px: &[u8], off: usize) -> (r: [u32; 16])
    requires
        tables.wf(),
        off + 16 <= px@.len(),
    ensures
        forall|k: int| 0 <= k < 16 ==> #[trigger] r@[k] == linear_of(px@[off + k] as int, k % 4),
{
    let len = px.len();
    let mut r: [u32; 16] = [0u32; 16];
    let mut k: usize = 0;
    while k < 16
        invariant
            tables.wf(),
            len == px@.len(),
            off + 16 <= len,
            0 <= k <= 16,
            forall|j: int| 0 <= j < k ==> #[trigger] r@[j] == linear_of(px@[off + j] as int, j % 4),
        decreases 16 - k,
    {
        let b = px[off + k];
        r[k] = if k % 4 == 3 {
            b as u32 * LINEAR_PER_LEVEL
        } else {
            tables.srgb_to_linear_lut(b) as u32
        };
        k = k + 1;
    }
    r
}

/// Converts sixteen linear values (four RGBA pixels) back to bytes: colour
/// channels through the encoding table, alpha rounded down.
pub fn linear_to_srgb_simd_4pixels(tables: &GammaTables, lin: [u32; 16]) -> (r: [u8; 16])
    requires
        tables.wf(),
        forall|k: int| 0 <= k < 16 ==> #[trigger] lin@[k] <= LINEAR_ONE,
    ensures
        forall|k: int| 0 <= k < 16 ==> #[trigger] r@[k] == encoded_of(lin@[k] as int, k % 4),
{
    let mut r: [u8; 16] = [0u8; 16];
    let mut k: usize = 0;
    while k < 16
        invariant
            tables.wf(),
            forall|j: int| 0 <= j < 16 ==> #[trigger] lin@[j] <= LINEAR_ONE,
            0 <= k <= 16,
            forall|j: int| 0 <= j < k ==> #[trigger] r@[j] == encoded_of(lin@[j] as int, j % 4),
        decreases 16 - k,
    {
        let v = lin[k];
        r[k] = if k % 4 == 3 {
            (v / LINEAR_PER_LEVEL) as u8
        } else {
            tables.linear_to_srgb_lut(v as u16)
        };
        k = k + 1;
    }
    r
}

/// Blends four pixels in linear light: colour channels are decoded through
/// the tables, blended as in bilinear interpolation, and encoded back; alpha
/// is blended as a linear value.
pub fn gamma_correct_bilinear(
    tables: &GammaTables,
    p00: [u8; 4],
    p10: [u8; 4],
    p01: [u8; 4],
    p11: [u8; 4],
    tx: u64,
    nx: u64,
    ty: u64,
    ny: u64,
) -> (r: [u8; 4])
    requires
        tables.wf(),
        tx <= nx <= MAX_BLEND_DENOM,
        0 < nx,
        ty <= ny <= MAX_BLEND_DENOM,
        0 < ny,
    ensures
        forall|c: int|
            0 <= c < 4 ==> #[trigger] r@[c] == gamma_blend(
                p00@[c] as int,
                p10@[c] as int,
                p01@[c] as int,
                p11@[c] as int,
                c,
                tx as int,
                nx as int,
                ty as int,
                ny as int,
            ),
{
    let mut r: [u8; 4] = [0u8; 4];
    let mut c: usize = 0;
    while c < 4
        invariant
            tables.wf(),
            tx <= nx <= MAX_BLEND_DENOM,
        0 < nx,
            ty <= ny <= MAX_BLEND_DENOM,
        0 < ny,
            0 <= c <= 4,
            forall|k: int|
                0 <= k < c ==> #[trigger] r@[k] == gamma_blend(
                    p00@[k] as int,
                    p10@[k] as int,
                    p01@[k] as int,
                    p11@[k] as int,
                    k,
                    tx as int,
                    nx as int,
                    ty as int,
                    ny as int,
                ),
        decreases 4 - c,
    {
        let (l00, l10, l01, l11) = if c == 3 {
            (
                p00[c] as u32 * LINEAR_PER_LEVEL,
                p10[c] as u32 * LINEAR_PER_LEVEL,
                p01[c] as u32 * LINEAR_PER_LEVEL,
                p11[c] as u32 * LINEAR_PER_LEVEL,
            )
        } else {
            (
                tables.srgb_to_linear_lut(p00[c]) as u32,
                tables.srgb_to_linear_lut(p10[c]) as u32,
                tables.srgb_to_linear_lut(p01[c]) as u32,
                tables.srgb_to_linear_lut(p11[c]) as u32,
            )
        };
        let top = lerp_linear(l00, l10, tx, nx);
        let bottom = lerp_linear(l01, l11, tx, nx);
        let v = lerp_linear(top, bottom, ty, ny);
        r[c] = if c == 3 {
            (v / LINEAR_PER_LEVEL) as u8
        } else {
            tables.linear_to_srgb_lut(v as u16)
        };
        c = c + 1;
    }
    r
}

/// The gamma-correct bilinear image: as the bilinear image, but blending
/// linear values.
pub open spec fn gamma_bilinear_pixel(
    src: Seq<u8>,
    src_w: int,
    src_h: int,
    dst_w: int,
    dst_h: int,
) -> spec_fn(int, int, int) -> u8 {
    |x: int, y: int, c: int|
        {
            let x0 = linear_lo(src_w, dst_w, x);
            let x1 = linear_hi(src_w, dst_w, x);
            let y0 = linear_lo(src_h, dst_h, y);
            let y1 = linear_hi(src_h, dst_h, y);
            gamma_blend(
                channel(src, src_w, x0, y0, c) as int,
                channel(src, src_w, x1, y0, c) as int,
                channel(src, src_w, x0, y1, c) as int,
                channel(src, src_w, x1, y1, c) as int,
                c,
                coord_frac(src_w, dst_w, x),
                2 * dst_w,
                coord_frac(src_h, dst_h, y),
                2 * dst_h,
            ) as u8
        }
}

/// Fills `dst` with the gamma-correct bilinear resampling of `src`.
pub fn gamma_bilinear_into(
    tables: &GammaTables,
    src: &[u8],
    src_w: u32,
    src_h: u32,
    dst: &mut [u8],
    dst_w: u32,
    dst_h: u32,
)
    requires
        tables.wf(),
        resample_ready(
            src@.len() as int,
            src_w as int,
            src_h as int,
            old(dst)@.len() as int,
            dst_w as int,
            dst_h as int,
        ),
    ensures
        image_matches(
            final(dst)@,
            dst_w as int,
            dst_h as int,
            gamma_bilinear_pixel(src@, src_w as int, src_h as int, dst_w as int, dst_h as int),
        ),
{
    let ghost f = gamma_bilinear_pixel(
        src@,
        src_w as int,
        src_h as int,
        dst_w as int,
        dst_h as int,
    );
    let xs = linear_axis(src_w, dst_w);
    let ys = linear_axis(src_h, dst_h);
    let sw = src_w as usize;
    let sh = src_h as usize;
    let dw = dst_w as usize;
    let dh = dst_h as usize;
    let x_den = 2 * dst_w as u64;
    let y_den = 2 * dst_h as u64;
    let mut y: usize = 0;
    while y < dh
        invariant
            tables.wf(),
            resample_ready(
                src@.len() as int,
                src_w as int,
                src_h as int,
                dst@.len() as int,
                dst_w as int,
                dst_h as int,
            ),
            sw == src_w,
            sh == src_h,
            dw == dst_w,
            dh == dst_h,
            x_den == 2 * dst_w,
            y_den == 2 * dst_h,
            xs@.len() == dst_w,
            ys@.len() == dst_h,
            forall|i: int|
                0 <= i < dst_w ==> linear_sample_is(
                    #[trigger] xs@[i],
                    src_w as int,
                    dst_w as int,
                    i,
                ),
            forall|i: int|
                0 <= i < dst_h ==> linear_sample_is(
                    #[trigger] ys@[i],
                    src_h as int,
                    dst_h as int,
                    i,
                ),
            f == gamma_bilinear_pixel(
                src@,
                src_w as int,
                src_h as int,
                dst_w as int,
                dst_h as int,
            ),
            0 <= y <= dh,
            written_before(dst@, dw as int, f, 0, y as int),
        decreases dh - y,
    {
        let ly: LinearSample = ys[y];
        proof {
            assert(linear_sample_is(ys@[y as int], src_h as int, dst_h as int, y as int));
            lemma_coord_facts(src_h as int, dst_h as int, y as int);
        }
        let mut x: usize = 0;
        while x < dw
            invariant
                tables.wf(),
                resample_ready(
                    src@.len() as int,
                    src_w as int,
                    src_h as int,
                    dst@.len() as int,
                    dst_w as int,
                    dst_h as int,
                ),
                sw == src_w,
                sh == src_h,
                dw == dst_w,
                dh == dst_h,
                x_den == 2 * dst_w,
                y_den == 2 * dst_h,
                xs@.len() == dst_w,
                forall|i: int|
                    0 <= i < dst_w ==> linear_sample_is(
                        #[trigger] xs@[i],
                        src_w as int,
                        dst_w as int,
                        i,
                    ),
                linear_sample_is(ly, src_h as int, dst_h as int, y as int),
                ly.lo < sh && ly.hi < sh && ly.frac < y_den,
                f == gamma_bilinear_pixel(
                    src@,
                    src_w as int,
                    src_h as int,
                    dst_w as int,
                    dst_h as int,
                ),
                0 <= y < dh,
                0 <= x <= dw,
                written_before(dst@, dw as int, f, x as int, y as int),
            decreases dw - x,
        {
            let lx: LinearSample = xs[x];
            proof {
                assert(linear_sample_is(xs@[x as int], src_w as int, dst_w as int, x as int));
                lemma_coord_facts(src_w as int, dst_w as int, x as int);
            }
            let p00 = read_pixel(src, sw, sh, lx.lo, ly.lo);
            let p10 = read_pixel(src, sw, sh, lx.hi, ly.lo);
            let p01 = read_pixel(src, sw, sh, lx.lo, ly.hi);
            let p11 = read_pixel(src, sw, sh, lx.hi, ly.hi);
            let px = gamma_correct_bilinear(
                tables,
                p00,
                p10,
                p01,
                p11,
                lx.frac,
                x_den,
                ly.frac,
                y_den,
            );
            proof {
                assert forall|c: int| 0 <= c < 4 implies px@[c] == f(x as int, y as int, c) by {
                    assert(px@[c] == gamma_blend(
                        p00@[c] as int,
                        p10@[c] as int,
                        p01@[c] as int,
                        p11@[c] as int,
                        c,
                        lx.frac as int,
                        x_den as int,
                        ly.frac as int,
                        y_den as int,
                    ));
                    assert(p00@[c] == channel(src@, sw as int, lx.lo as int, ly.lo as int, c));
                    assert(p10@[c] == channel(src@, sw as int, lx.hi as int, ly.lo as int, c));
                    assert(p01@[c] == channel(src@, sw as int, lx.lo as int, ly.hi as int, c));
                    assert(p11@[c] == channel(src@, sw as int, lx.hi as int, ly.hi as int, c));
                }
            }
            put_pixel(dst, dw, dh, x, y, px, Ghost(f));
            x = x + 1;
        }
        proof {
            lemma_next_row(dst@, dw as int, f, y as int);
        }
        y = y + 1;
    }
    proof {
        lemma_written_all(dst@, dw as int, dh as int, f);
    }
}

/// Resizes with bilinear interpolation in linear light. Returns the call's
/// status; on `RESIZE_OK` `dst` holds the resampled image, otherwise it is
/// untouched.
pub fn resize_rgba_gamma_bilinear(
    src_addr: usize,
    src: &[u8],
    src_w: u32,
    src_h: u32,
    dst_addr: usize,
    dst: &mut [u8],
    dst_w: u32,
    dst_h: u32,
) -> (r: i32)
    ensures
        r == call_status(
            src_addr as int,
            src@.len() as int,
            src_w as int,
            src_h as int,
            dst_addr as int,
            old(dst)@.len() as int,
            dst_w as int,
            dst_h as int,
        ),
        r != RESIZE_OK ==> final(dst)@ == old(dst)@,
        r == RESIZE_OK ==> image_matches(
            final(dst)@,
            dst_w as int,
            dst_h as int,
            gamma_bilinear_pixel(src@, src_w as int, src_h as int, dst_w as int, dst_h as int),
        ),
{
    let status = check_call(src_addr, src.len(), src_w, src_h, dst_addr, dst.len(), dst_w, dst_h);
    if status != RESIZE_OK {
        return status;
    }
    let tables = init_gamma_luts();
    gamma_bilinear_into(&tables, src, src_w, src_h, dst, dst_w, dst_h);
    RESIZE_OK
}

} // verus!
