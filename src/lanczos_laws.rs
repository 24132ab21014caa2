//! Properties of Lanczos resampling: identity, flat fields, and anti-ringing.

use vstd::prelude::*;
use crate::axis::{
    axis_ok, coord_num, lanczos_taps, tap_weight, taps_before, window_end, window_start,
};
use crate::image::{channel, dims_ok, image_matches, in_image, index_of};
use crate::kernel::{abs, lanczos_weight, sin_pi, sin_quarter, sinc, WEIGHT_ONE};
use crate::lanczos::{
    convolve, horizontal_sample, lanczos_pixel, lemma_convolve_bounds,
    samples_in_range, trunc_div, vertical_sample, weight_total, weighted_sum, window_max,
    window_min, MAX_SAMPLE, SAMPLE_ONE,
};
use crate::laws::{
    is_solid, lemma_bilinear_solid, lemma_image_unique, lemma_nearest_solid, lemma_same_size_axis,
};
use crate::resize::auto_pixel;
use crate::select::{selected_algorithm, ALGORITHM_LANCZOS};

verus! {

/// At a whole-number distance the kernel is 1 at zero and 0 elsewhere.
pub proof fn lemma_kernel_at_integers(m: int, q: int)
    requires
        q >= 1,
    ensures
        lanczos_weight(m * q, q) == if m == 0 {
            WEIGHT_ONE as int
        } else {
            0
        },
{
    let a = abs(m * q);
    assert(a == abs(m) * q) by (nonlinear_arith)
        requires
            a == abs(m * q),
            q >= 1,
    ;
    if m == 0 {
        assert(m * q == 0);
    } else if abs(m) >= 3 {
        assert(a >= 3 * q) by (nonlinear_arith)
            requires
                a == abs(m) * q,
                abs(m) >= 3,
                q >= 1,
        ;
    } else {
        assert(a < 3 * q) by (nonlinear_arith)
            requires
                a == abs(m) * q,
                abs(m) < 3,
                q >= 1,
        ;
        assert(a > 0) by (nonlinear_arith)
            requires
                a == abs(m) * q,
                abs(m) >= 1,
                q >= 1,
        ;
        vstd::arithmetic::div_mod::lemma_mod_multiples_basic(abs(m), q);
        assert(a % q == 0);
        vstd::arithmetic::div_mod::lemma_div_of0(q);
        assert(0 * (crate::kernel::PI_Q30 as int) == 0);
        assert(sin_quarter(0, q) == 0);
        assert(sin_pi(a, q) == 0);
        assert(a * (crate::kernel::PI_Q30 as int) != 0) by (nonlinear_arith)
            requires
                a > 0,
        ;
        vstd::arithmetic::div_mod::lemma_div_of0(a * (crate::kernel::PI_Q30 as int));
        assert(abs(0) == 0);
        assert(0 * (crate::kernel::TRIG_ONE as int) * q == 0) by (nonlinear_arith);
        assert(sinc(a, q) == 0);
    }
}

/// Resized to its own size, every Lanczos tap list is the one tap on the
/// sample itself, at full weight.
pub proof fn lemma_same_size_taps(s: int, i: int)
    requires
        axis_ok(s, s),
        0 <= i < s,
    ensures
        lanczos_taps(s, s, i) == seq![(i, WEIGHT_ONE as int)],
{
    lemma_same_size_axis(s, i);
    let start = window_start(s, s, i);
    let end = window_end(s, s, i);
    assert(start <= i <= end);
    lemma_same_size_taps_before(s, i, end + 1);
}

proof fn lemma_same_size_taps_before(s: int, i: int, j: int)
    requires
        axis_ok(s, s),
        0 <= i < s,
        crate::axis::coord_floor(s, s, i) == i,
        j <= window_end(s, s, i) + 1,
    ensures
        taps_before(s, s, i, j) == if j > i && j > window_start(s, s, i) {
            seq![(i, WEIGHT_ONE as int)]
        } else {
            Seq::<(int, int)>::empty()
        },
    decreases j - window_start(s, s, i),
{
    if j > window_start(s, s, i) {
        lemma_same_size_taps_before(s, i, j - 1);
        assert(2 * s * (j - 1) - coord_num(s, s, i) == (j - 1 - i) * (2 * s)) by (nonlinear_arith);
        lemma_kernel_at_integers(j - 1 - i, 2 * s);
        assert(tap_weight(s, s, i, j - 1) == lanczos_weight((j - 1 - i) * (2 * s), 2 * s));
        if j - 1 == i {
            assert(Seq::<(int, int)>::empty().push((i, WEIGHT_ONE as int)) =~= seq![
                (i, WEIGHT_ONE as int),
            ]);
        }
    }
}

/// A pass over a single full-weight tap returns that tap's sample.
pub proof fn lemma_convolve_single(i: int, f: spec_fn(int) -> int)
    requires
        0 <= f(i) <= MAX_SAMPLE,
    ensures
        convolve(seq![(i, WEIGHT_ONE as int)], f) == f(i),
{
    let t = seq![(i, WEIGHT_ONE as int)];
    assert(t.drop_last() =~= Seq::<(int, int)>::empty());
    assert(weighted_sum(Seq::<(int, int)>::empty(), f) == 0);
    assert(weight_total(Seq::<(int, int)>::empty()) == 0);
    assert(window_min(Seq::<(int, int)>::empty(), f) == MAX_SAMPLE);
    assert(window_max(Seq::<(int, int)>::empty(), f) == 0);
    assert(t.last() == (i, WEIGHT_ONE as int));
    assert(weighted_sum(t, f) == WEIGHT_ONE * f(i));
    assert(weight_total(t) == WEIGHT_ONE);
    vstd::arithmetic::div_mod::lemma_div_multiples_vanish(f(i), WEIGHT_ONE as int);
    assert(WEIGHT_ONE * f(i) == (WEIGHT_ONE as int) * f(i));
    assert(trunc_div(WEIGHT_ONE * f(i), WEIGHT_ONE as int) == f(i));
}

/// Resizing to the same dimensions with Lanczos reproduces the source
/// exactly.
pub proof fn lemma_lanczos_identity(src: Seq<u8>, w: int, h: int, out: Seq<u8>)
    requires
        axis_ok(w, w),
        axis_ok(h, h),
        dims_ok(w, h),
        src.len() == w * h * 4,
        image_matches(out, w, h, lanczos_pixel(src, w, h, w, h)),
    ensures
        out == src,
{
    let g = lanczos_pixel(src, w, h, w, h);
    assert forall|x: int, y: int, c: int| in_image(w, h, x, y, c) implies src[#[trigger] index_of(
        w,
        x,
        y,
        c,
    )] == g(x, y, c) by {
        let v = channel(src, w, x, y, c) as int;
        lemma_same_size_taps(w, x);
        lemma_same_size_taps(h, y);
        let f1 = |j: int| SAMPLE_ONE * channel(src, w, j, y, c) as int;
        lemma_convolve_single(x, f1);
        assert(horizontal_sample(src, w, w, x, y, c) == SAMPLE_ONE * v);
        let f2 = |j: int| horizontal_sample(src, w, w, x, j, c);
        lemma_convolve_single(y, f2);
        assert(vertical_sample(src, w, h, w, h, x, y, c) == SAMPLE_ONE * v);
        vstd::arithmetic::div_mod::lemma_div_multiples_vanish(v, SAMPLE_ONE as int);
        assert(SAMPLE_ONE * v == (SAMPLE_ONE as int) * v);
    }
    lemma_image_unique(out, src, w, h, g);
}

/// Over taps whose samples all equal `v`, the window's extremes are `v`.
proof fn lemma_flat_window(t: Seq<(int, int)>, f: spec_fn(int) -> int, v: int)
    requires
        t.len() > 0,
        0 <= v <= MAX_SAMPLE,
        forall|k: int| 0 <= k < t.len() ==> #[trigger] f(t[k].0) == v,
    ensures
        window_min(t, f) == v,
        window_max(t, f) == v,
    decreases t.len(),
{
    let p = t.drop_last();
    assert(f(t[t.len() - 1].0) == v);
    if p.len() == 0 {
        assert(window_min(p, f) == MAX_SAMPLE);
        assert(window_max(p, f) == 0);
    } else {
        assert forall|k: int| 0 <= k < p.len() implies #[trigger] f(p[k].0) == v by {
            assert(p[k] == t[k]);
        }
        lemma_flat_window(p, f, v);
    }
}

/// A pass over taps whose samples all equal `v` returns `v`; with no taps
/// it returns 0.
pub proof fn lemma_convolve_flat(t: Seq<(int, int)>, f: spec_fn(int) -> int, v: int)
    requires
        0 <= v <= MAX_SAMPLE,
        forall|k: int| 0 <= k < t.len() ==> #[trigger] f(t[k].0) == v,
    ensures
        convolve(t, f) == if t.len() > 0 {
            v
        } else {
            0
        },
{
    if t.len() > 0 {
        lemma_flat_window(t, f, v);
    }
}

/// Whether no destination sample of an axis from `s` to `d` samples is left
/// without a Lanczos tap.
pub open spec fn lanczos_covers(s: int, d: int) -> bool {
    forall|i: int| 0 <= i < d ==> (#[trigger] lanczos_taps(s, d, i)).len() > 0
}

/// Resizing a single-colour image with Lanczos yields an image of that
/// colour only, whenever every destination sample has a tap (or the colour
/// is all zero). A destination sample farther than three kernel widths from
/// every source sample, which can happen when upscaling by six or more, has
/// none and comes out as zero.
pub proof fn lemma_lanczos_solid(
    src: Seq<u8>,
    src_w: int,
    src_h: int,
    dst_w: int,
    dst_h: int,
    px: Seq<u8>,
    out: Seq<u8>,
)
    requires
        axis_ok(src_w, dst_w),
        axis_ok(src_h, dst_h),
        dims_ok(src_w, src_h),
        is_solid(src, src_w, src_h, px),
        (lanczos_covers(src_w, dst_w) && lanczos_covers(src_h, dst_h)) || (forall|c: int|
            0 <= c < 4 ==> #[trigger] px[c] == 0),
        image_matches(out, dst_w, dst_h, lanczos_pixel(src, src_w, src_h, dst_w, dst_h)),
    ensures
        is_solid(out, dst_w, dst_h, px),
{
    assert forall|x: int, y: int, c: int| in_image(dst_w, dst_h, x, y, c) implies #[trigger] channel(
        out,
        dst_w,
        x,
        y,
        c,
    ) == px[c] by {
        let v = SAMPLE_ONE * px[c] as int;
        let tx = lanczos_taps(src_w, dst_w, x);
        let ty = lanczos_taps(src_h, dst_h, y);
        lemma_taps_in_axis(src_w, dst_w, x);
        lemma_taps_in_axis(src_h, dst_h, y);
        let hv = if tx.len() > 0 {
            v
        } else {
            0
        };
        assert forall|j: int| 0 <= j < src_h implies horizontal_sample(
            src,
            src_w,
            dst_w,
            x,
            j,
            c,
        ) == hv by {
            let f1 = |jj: int| SAMPLE_ONE * channel(src, src_w, jj, j, c) as int;
            assert forall|k: int| 0 <= k < tx.len() implies #[trigger] f1(tx[k].0) == v by {
                assert(in_image(src_w, src_h, tx[k].0, j, c));
            }
            lemma_convolve_flat(tx, f1, v);
        }
        let f2 = |j: int| horizontal_sample(src, src_w, dst_w, x, j, c);
        assert forall|k: int| 0 <= k < ty.len() implies #[trigger] f2(ty[k].0) == hv by {
            assert(0 <= ty[k].0 < src_h);
        }
        lemma_convolve_flat(ty, f2, hv);
        vstd::arithmetic::div_mod::lemma_div_multiples_vanish(px[c] as int, SAMPLE_ONE as int);
        assert(v == (SAMPLE_ONE as int) * px[c]);
        if !(tx.len() > 0 && ty.len() > 0) {
            assert(px[c] == 0);
        }
        assert(out[index_of(dst_w, x, y, c)] == lanczos_pixel(src, src_w, src_h, dst_w, dst_h)(
            x,
            y,
            c,
        ));
    }
}

/// Every tap of an axis reads a source sample of that axis.
pub proof fn lemma_taps_in_axis(s: int, d: int, i: int)
    requires
        axis_ok(s, d),
        0 <= i < d,
    ensures
        forall|k: int|
            0 <= k < lanczos_taps(s, d, i).len() ==> 0 <= #[trigger] lanczos_taps(s, d, i)[k].0
                < s,
{
    crate::axis::lemma_coord_facts(s, d, i);
    lemma_taps_before_in_window(s, d, i, window_end(s, d, i) + 1);
}

proof fn lemma_taps_before_in_window(s: int, d: int, i: int, j: int)
    ensures
        forall|k: int|
            0 <= k < taps_before(s, d, i, j).len() ==> window_start(s, d, i)
                <= #[trigger] taps_before(s, d, i, j)[k].0 < j,
    decreases j - window_start(s, d, i),
{
    if j > window_start(s, d, i) {
        lemma_taps_before_in_window(s, d, i, j - 1);
        let prev = taps_before(s, d, i, j - 1);
        let cur = taps_before(s, d, i, j);
        assert forall|k: int| 0 <= k < cur.len() implies window_start(s, d, i)
            <= #[trigger] cur[k].0 < j by {
            if k < prev.len() {
                assert(cur[k] == prev[k]);
            }
        }
    }
}

/// Whether `j` is the source index of one of the taps.
pub open spec fn is_tap(t: Seq<(int, int)>, j: int) -> bool {
    exists|k: int| 0 <= k < t.len() && t[k].0 == j
}

/// The window's extremes are samples of taps.
proof fn lemma_window_attained(t: Seq<(int, int)>, f: spec_fn(int) -> int) -> (r: (int, int))
    requires
        t.len() > 0,
    ensures
        0 <= r.0 < t.len(),
        0 <= r.1 < t.len(),
        f(t[r.0].0) == window_min(t, f) || window_min(t, f) == MAX_SAMPLE,
        f(t[r.1].0) == window_max(t, f) || window_max(t, f) == 0,
    decreases t.len(),
{
    let p = t.drop_last();
    let last = t.len() - 1;
    if p.len() == 0 {
        assert(window_min(p, f) == MAX_SAMPLE);
        assert(window_max(p, f) == 0);
        (last, last)
    } else {
        let (a, b) = lemma_window_attained(p, f);
        assert(p[a] == t[a] && p[b] == t[b]);
        let lo = if f(t[last].0) < window_min(p, f) {
            last
        } else {
            a
        };
        let hi = if f(t[last].0) > window_max(p, f) {
            last
        } else {
            b
        };
        (lo, hi)
    }
}

/// Anti-ringing: every channel value of the Lanczos image lies between two
/// values of that channel among the source pixels of its tap window (the
/// columns of its horizontal taps by the rows of its vertical taps).
pub proof fn lemma_lanczos_within_window(
    src: Seq<u8>,
    src_w: int,
    src_h: int,
    dst_w: int,
    dst_h: int,
    out: Seq<u8>,
    x: int,
    y: int,
    c: int,
)
    requires
        axis_ok(src_w, dst_w),
        axis_ok(src_h, dst_h),
        dims_ok(src_w, src_h),
        src.len() == src_w * src_h * 4,
        image_matches(out, dst_w, dst_h, lanczos_pixel(src, src_w, src_h, dst_w, dst_h)),
        in_image(dst_w, dst_h, x, y, c),
        lanczos_taps(src_w, dst_w, x).len() > 0,
        lanczos_taps(src_h, dst_h, y).len() > 0,
    ensures
        exists|a: int, b: int, a2: int, b2: int|
            {
                &&& is_tap(lanczos_taps(src_w, dst_w, x), a)
                &&& is_tap(lanczos_taps(src_w, dst_w, x), b)
                &&& is_tap(lanczos_taps(src_h, dst_h, y), a2)
                &&& is_tap(lanczos_taps(src_h, dst_h, y), b2)
                &&& channel(src, src_w, a, a2, c) <= channel(out, dst_w, x, y, c) <= channel(
                    src,
                    src_w,
                    b,
                    b2,
                    c,
                )
            },
{
    let tx = lanczos_taps(src_w, dst_w, x);
    let ty = lanczos_taps(src_h, dst_h, y);
    let f2 = |j: int| horizontal_sample(src, src_w, dst_w, x, j, c);
    // the pass-one samples lie in range
    assert forall|j: int| 0 <= #[trigger] f2(j) <= MAX_SAMPLE by {
        let f1 = |jj: int| SAMPLE_ONE * channel(src, src_w, jj, j, c) as int;
        assert forall|k: int| 0 <= k < tx.len() implies 0 <= #[trigger] f1(tx[k].0)
            <= MAX_SAMPLE by {
            let b = channel(src, src_w, tx[k].0, j, c);
            assert(0 <= b <= 255);
        }
        lemma_convolve_bounds(tx, f1);
    }
    assert(samples_in_range(ty, f2));
    lemma_convolve_bounds(ty, f2);
    let v = vertical_sample(src, src_w, src_h, dst_w, dst_h, x, y, c);
    let (ka2, kb2) = lemma_window_attained(ty, f2);
    crate::lanczos::lemma_window_bounds(ty, f2);
    let a2 = ty[ka2].0;
    let b2 = ty[kb2].0;
    // lower side: v >= f2(a2) >= SAMPLE_ONE * src(a, a2)
    let fa = |jj: int| SAMPLE_ONE * channel(src, src_w, jj, a2, c) as int;
    let fb = |jj: int| SAMPLE_ONE * channel(src, src_w, jj, b2, c) as int;
    assert forall|k: int| 0 <= k < tx.len() implies 0 <= #[trigger] fa(tx[k].0) <= MAX_SAMPLE by {
        let q = channel(src, src_w, tx[k].0, a2, c);
        assert(0 <= q <= 255);
    }
    assert forall|k: int| 0 <= k < tx.len() implies 0 <= #[trigger] fb(tx[k].0) <= MAX_SAMPLE by {
        let q = channel(src, src_w, tx[k].0, b2, c);
        assert(0 <= q <= 255);
    }
    lemma_convolve_bounds(tx, fa);
    lemma_convolve_bounds(tx, fb);
    crate::lanczos::lemma_window_bounds(tx, fa);
    crate::lanczos::lemma_window_bounds(tx, fb);
    let (ka, _x1) = lemma_window_attained(tx, fa);
    let (_x2, kb) = lemma_window_attained(tx, fb);
    let a = tx[ka].0;
    let b = tx[kb].0;
    let lo = channel(src, src_w, a, a2, c) as int;
    let hi = channel(src, src_w, b, b2, c) as int;
    // the window minimum is attained, or is the cap MAX_SAMPLE that is reached anyway
    assert(SAMPLE_ONE * lo <= v) by {
        assert(window_min(tx, fa) <= fa(a));
        assert(window_min(ty, f2) <= f2(a2));
        if window_min(ty, f2) != MAX_SAMPLE {
            assert(f2(a2) == window_min(ty, f2));
        } else {
            assert(f2(a2) == MAX_SAMPLE);
        }
        if window_min(tx, fa) != MAX_SAMPLE {
            assert(fa(a) == window_min(tx, fa));
        } else {
            assert(fa(a) <= MAX_SAMPLE);
            assert(fa(a) == MAX_SAMPLE);
        }
    }
    assert(v <= SAMPLE_ONE * hi) by {
        assert(window_max(tx, fb) >= fb(b));
        assert(window_max(ty, f2) >= f2(b2));
        if window_max(ty, f2) != 0 {
            assert(f2(b2) == window_max(ty, f2));
        } else {
            assert(f2(b2) == 0);
        }
        if window_max(tx, fb) != 0 {
            assert(fb(b) == window_max(tx, fb));
        } else {
            assert(fb(b) == 0);
        }
    }
    vstd::arithmetic::div_mod::lemma_div_multiples_vanish(lo, SAMPLE_ONE as int);
    vstd::arithmetic::div_mod::lemma_div_multiples_vanish(hi, SAMPLE_ONE as int);
    vstd::arithmetic::div_mod::lemma_div_is_ordered(SAMPLE_ONE * lo, v, SAMPLE_ONE as int);
    vstd::arithmetic::div_mod::lemma_div_is_ordered(v, SAMPLE_ONE * hi, SAMPLE_ONE as int);
    assert(out[index_of(dst_w, x, y, c)] == lanczos_pixel(src, src_w, src_h, dst_w, dst_h)(
        x,
        y,
        c,
    ));
    assert(is_tap(tx, a));
    assert(is_tap(tx, b));
    assert(is_tap(ty, a2));
    assert(is_tap(ty, b2));
}

/// Resizing a single-colour image with the automatically selected algorithm
/// yields an image of that colour only; when Lanczos is selected, under the
/// same condition as for Lanczos itself.
pub proof fn lemma_auto_solid(
    src: Seq<u8>,
    src_w: int,
    src_h: int,
    dst_w: int,
    dst_h: int,
    px: Seq<u8>,
    out: Seq<u8>,
)
    requires
        axis_ok(src_w, dst_w),
        axis_ok(src_h, dst_h),
        dims_ok(src_w, src_h),
        is_solid(src, src_w, src_h, px),
        selected_algorithm(src_w, src_h, dst_w, dst_h) == ALGORITHM_LANCZOS ==> ((lanczos_covers(
            src_w,
            dst_w,
        ) && lanczos_covers(src_h, dst_h)) || (forall|c: int| 0 <= c < 4 ==> #[trigger] px[c] == 0)),
        image_matches(out, dst_w, dst_h, auto_pixel(src, src_w, src_h, dst_w, dst_h)),
    ensures
        is_solid(out, dst_w, dst_h, px),
{
    let a = selected_algorithm(src_w, src_h, dst_w, dst_h);
    if a == crate::select::ALGORITHM_NEAREST {
        lemma_nearest_solid(src, src_w, src_h, dst_w, dst_h, px, out);
    } else if a == crate::select::ALGORITHM_BILINEAR {
        lemma_bilinear_solid(src, src_w, src_h, dst_w, dst_h, px, out);
    } else {
        lemma_lanczos_solid(src, src_w, src_h, dst_w, dst_h, px, out);
    }
}

} // verus!
