//! RGBA image layout and the row-major writing of an image pixel by pixel.

use vstd::prelude::*;
use crate::validate::MAX_PIXELS;

verus! {

/// Byte index of channel `c` of pixel `(x, y)` in an RGBA image `w` pixels wide.
pub open spec fn index_of(w: int, x: int, y: int, c: int) -> int {
    (y * w + x) * 4 + c
}

/// Whether `(x, y, c)` names a channel of a `w x h` image.
pub open spec fn in_image(w: int, h: int, x: int, y: int, c: int) -> bool {
    0 <= x < w && 0 <= y < h && 0 <= c < 4
}

/// Channel `c` of pixel `(x, y)` of `img`.
pub open spec fn channel(img: Seq<u8>, w: int, x: int, y: int, c: int) -> u8 {
    img[index_of(w, x, y, c)]
}

/// Whether `out` is the `w x h` image whose channel `c` of pixel `(x, y)` is
/// `f(x, y, c)`.
pub open spec fn image_matches(out: Seq<u8>, w: int, h: int, f: spec_fn(int, int, int) -> u8) -> bool {
    &&& out.len() == w * h * 4
    &&& forall|x: int, y: int, c: int|
        in_image(w, h, x, y, c) ==> out[#[trigger] index_of(w, x, y, c)] == f(x, y, c)
}

/// Whether the pixels before `(x, y)` in row-major order hold `f`.
pub open spec fn written_before(
    out: Seq<u8>,
    w: int,
    f: spec_fn(int, int, int) -> u8,
    x: int,
    y: int,
) -> bool {
    forall|xx: int, yy: int, c: int|
        0 <= xx < w && 0 <= yy && 0 <= c < 4 && (yy < y || (yy == y && xx < x)) ==> out[
        #[trigger] index_of(w, xx, yy, c)] == f(xx, yy, c)
}

/// Whether `w x h` are dimensions of a valid image.
pub open spec fn dims_ok(w: int, h: int) -> bool {
    1 <= w && 1 <= h && w * h <= MAX_PIXELS
}

/// Channel indices of a valid image are in bounds, and distinct channels
/// have distinct indices.
pub proof fn lemma_index_bounds(w: int, h: int, x: int, y: int, c: int)
    requires
        dims_ok(w, h),
        in_image(w, h, x, y, c),
    ensures
        0 <= index_of(w, x, y, c) < w * h * 4,
        index_of(w, x, y, c) == index_of(w, x, y, 0) + c,
        y * w + x < w * h,
        w * h * 4 <= 4 * MAX_PIXELS,
{
    assert(0 <= y * w) by (nonlinear_arith)
        requires
            0 <= y,
            0 <= w,
    ;
    assert(y * w + x < w * h) by (nonlinear_arith)
        requires
            0 <= x < w,
            0 <= y < h,
    ;
}

pub proof fn lemma_index_injective(w: int, x1: int, y1: int, c1: int, x2: int, y2: int, c2: int)
    requires
        0 <= x1 < w,
        0 <= x2 < w,
        0 <= y1,
        0 <= y2,
        0 <= c1 < 4,
        0 <= c2 < 4,
        index_of(w, x1, y1, c1) == index_of(w, x2, y2, c2),
    ensures
        x1 == x2 && y1 == y2 && c1 == c2,
{
    let p1 = y1 * w + x1;
    let p2 = y2 * w + x2;
    vstd::arithmetic::div_mod::lemma_fundamental_div_mod_converse(p1 * 4 + c1, 4, p1, c1);
    vstd::arithmetic::div_mod::lemma_fundamental_div_mod_converse(p2 * 4 + c2, 4, p2, c2);
    assert(p1 == p2 && c1 == c2);
    vstd::arithmetic::div_mod::lemma_fundamental_div_mod_converse(p1, w, y1, x1);
    vstd::arithmetic::div_mod::lemma_fundamental_div_mod_converse(p2, w, y2, x2);
}

/// Writes `px` as pixel `(x, y)` of the `w x h` image in `dst`, extending
/// the row-major prefix that holds `f` by that pixel.
pub fn put_pixel(
    dst: &mut [u8],
    w: usize,
    h: usize,
    x: usize,
    y: usize,
    px: [u8; 4],
    Ghost(f): Ghost<spec_fn(int, int, int) -> u8>,
)
    requires
        dims_ok(w as int, h as int),
        old(dst)@.len() == w * h * 4,
        x < w,
        y < h,
        written_before(old(dst)@, w as int, f, x as int, y as int),
        forall|c: int| 0 <= c < 4 ==> px@[c] == f(x as int, y as int, c),
    ensures
        final(dst)@.len() == old(dst)@.len(),
        written_before(final(dst)@, w as int, f, x + 1, y as int),
{
    proof {
        lemma_index_bounds(w as int, h as int, x as int, y as int, 3);
    }
    let base = (y * w + x) * 4;
    dst[base] = px[0];
    dst[base + 1] = px[1];
    dst[base + 2] = px[2];
    dst[base + 3] = px[3];
    proof {
        assert forall|xx: int, yy: int, c: int|
            0 <= xx < w && 0 <= yy && 0 <= c < 4 && (yy < y || (yy == y && xx < x
                + 1)) implies dst@[#[trigger] index_of(w as int, xx, yy, c)] == f(xx, yy, c) by {
            lemma_index_bounds(w as int, h as int, xx, yy, c);
            if xx == x && yy == y {
                assert(index_of(w as int, xx, yy, c) == base + c);
            } else {
                let k = index_of(w as int, xx, yy, c);
                if k == base || k == base + 1 || k == base + 2 || k == base + 3 {
                    lemma_index_injective(
                        w as int,
                        xx,
                        yy,
                        c,
                        x as int,
                        y as int,
                        k - base,
                    );
                }
            }
        }
    }
}

/// Once every row is written the image holds `f`.
pub proof fn lemma_written_all(out: Seq<u8>, w: int, h: int, f: spec_fn(int, int, int) -> u8)
    requires
        out.len() == w * h * 4,
        written_before(out, w, f, 0, h),
    ensures
        image_matches(out, w, h, f),
{
}

/// A finished row carries over to the start of the next.
pub proof fn lemma_next_row(out: Seq<u8>, w: int, f: spec_fn(int, int, int) -> u8, y: int)
    requires
        written_before(out, w, f, w, y),
    ensures
        written_before(out, w, f, 0, y + 1),
{
}

} // verus!
