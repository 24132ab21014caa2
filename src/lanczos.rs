//! Separable Lanczos resampling: a horizontal pass into an intermediate image,
//! then a vertical pass, each normalised and clamped to its samples' range.

use vstd::prelude::*;
use crate::axis::{lanczos_axis, lanczos_taps, taps_are, taps_bounded, weights_bounded, Tap};
use crate::call::{call_status, check_call, resample_ready};
use crate::image::{
    channel, image_matches, lemma_index_bounds, lemma_next_row, lemma_written_all, put_pixel,
    written_before,
};
use crate::kernel::WEIGHT_ONE;
use crate::status::RESIZE_OK;

verus! {

/// Fixed-point unit of intermediate sample values: a channel value `v` is
/// held as `v * SAMPLE_ONE`.
pub const SAMPLE_ONE: i64 = 4096;

/// Largest intermediate sample value, `255 * SAMPLE_ONE`.
pub const MAX_SAMPLE: i64 = 1044480;

/// `sum of weight * f(index)` over the taps.
pub open spec fn weighted_sum(t: Seq<(int, int)>, f: spec_fn(int) -> int) -> int
    decreases t.len(),
{
    if t.len() == 0 {
        0
    } else {
        weighted_sum(t.drop_last(), f) + t.last().1 * f(t.last().0)
    }
}

/// Sum of the taps' weights.
pub open spec fn weight_total(t: Seq<(int, int)>) -> int
    decreases t.len(),
{
    if t.len() == 0 {
        0
    } else {
        weight_total(t.drop_last()) + t.last().1
    }
}

/// Smallest sample among the taps, `MAX_SAMPLE` when there are none.
pub open spec fn window_min(t: Seq<(int, int)>, f: spec_fn(int) -> int) -> int
    decreases t.len(),
{
    if t.len() == 0 {
        MAX_SAMPLE as int
    } else {
        let m = window_min(t.drop_last(), f);
        let v = f(t.last().0);
        if v < m {
            v
        } else {
            m
        }
    }
}

/// Largest sample among the taps, 0 when there are none.
pub open spec fn window_max(t: Seq<(int, int)>, f: spec_fn(int) -> int) -> int
    decreases t.len(),
{
    if t.len() == 0 {
        0
    } else {
        let m = window_max(t.drop_last(), f);
        let v = f(t.last().0);
        if v > m {
            v
        } else {
            m
        }
    }
}

/// `n / d` rounded toward zero; 0 when `d` is 0.
pub open spec fn trunc_div(n: int, d: int) -> int {
    if d == 0 {
        0
    } else {
        let q = crate::kernel::abs(n) / crate::kernel::abs(d);
        if (n < 0) != (d < 0) {
            -q
        } else {
            q
        }
    }
}

/// `v` raised to at least `lo`, then lowered to at most `hi`.
pub open spec fn ring_clamp(v: int, lo: int, hi: int) -> int {
    let a = if v < lo {
        lo
    } else {
        v
    };
    if a > hi {
        hi
    } else {
        a
    }
}

/// One output sample of a Lanczos pass: the weighted mean of the taps'
/// samples (0 when the weights sum to 0), clamped into the range of those
/// samples.
pub open spec fn convolve(t: Seq<(int, int)>, f: spec_fn(int) -> int) -> int {
    ring_clamp(
        trunc_div(weighted_sum(t, f), weight_total(t)),
        window_min(t, f),
        window_max(t, f),
    )
}

/// Pass one: channel `c` of column `x` of source row `y`, resampled along
/// the rows, in units of `1 / SAMPLE_ONE`.
pub open spec fn horizontal_sample(
    src: Seq<u8>,
    src_w: int,
    dst_w: int,
    x: int,
    y: int,
    c: int,
) -> int {
    convolve(
        lanczos_taps(src_w, dst_w, x),
        |j: int| SAMPLE_ONE * channel(src, src_w, j, y, c) as int,
    )
}

/// Pass two: channel `c` of pixel `(x, y)`, resampled along the columns of
/// the pass-one result, in units of `1 / SAMPLE_ONE`.
pub open spec fn vertical_sample(
    src: Seq<u8>,
    src_w: int,
    src_h: int,
    dst_w: int,
    dst_h: int,
    x: int,
    y: int,
    c: int,
) -> int {
    convolve(
        lanczos_taps(src_h, dst_h, y),
        |j: int| horizontal_sample(src, src_w, dst_w, x, j, c),
    )
}

/// The Lanczos image: the pass-two value, rounded down to a whole channel
/// value.
pub open spec fn lanczos_pixel(
    src: Seq<u8>,
    src_w: int,
    src_h: int,
    dst_w: int,
    dst_h: int,
) -> spec_fn(int, int, int) -> u8 {
    |x: int, y: int, c: int|
        (vertical_sample(src, src_w, src_h, dst_w, dst_h, x, y, c) / SAMPLE_ONE as int) as u8
}

/// Whether every sample the taps read lies in `[0, MAX_SAMPLE]`.
pub open spec fn samples_in_range(t: Seq<(int, int)>, f: spec_fn(int) -> int) -> bool {
    forall|k: int| 0 <= k < t.len() ==> 0 <= #[trigger] f(t[k].0) <= MAX_SAMPLE
}

/// Bounds of the running window extremes.
pub proof fn lemma_window_bounds(t: Seq<(int, int)>, f: spec_fn(int) -> int)
    requires
        samples_in_range(t, f),
    ensures
        0 <= window_min(t, f) <= MAX_SAMPLE,
        0 <= window_max(t, f) <= MAX_SAMPLE,
        t.len() > 0 ==> window_min(t, f) <= window_max(t, f),
        forall|k: int|
            0 <= k < t.len() ==> window_min(t, f) <= #[trigger] f(t[k].0) <= window_max(t, f),
    decreases t.len(),
{
    if t.len() > 0 {
        let p = t.drop_last();
        assert forall|k: int| 0 <= k < p.len() implies 0 <= #[trigger] f(p[k].0) <= MAX_SAMPLE by {
            assert(p[k] == t[k]);
        }
        lemma_window_bounds(p, f);
        assert forall|k: int|
            0 <= k < t.len() implies window_min(t, f) <= #[trigger] f(t[k].0) <= window_max(
            t,
            f,
        ) by {
            if k < p.len() {
                assert(p[k] == t[k]);
            }
        }
    }
}

/// A pass's output lies within the range of the samples it reads, and in
/// `[0, MAX_SAMPLE]`.
pub proof fn lemma_convolve_bounds(t: Seq<(int, int)>, f: spec_fn(int) -> int)
    requires
        samples_in_range(t, f),
    ensures
        0 <= convolve(t, f) <= MAX_SAMPLE,
        t.len() > 0 ==> window_min(t, f) <= convolve(t, f) <= window_max(t, f),
{
    lemma_window_bounds(t, f);
}

/// Keeps a value within `[min_val, max_val]`: raised to `min_val`, then
/// lowered to `max_val`.
pub fn anti_ringing_clamp(value: i64, min_val: i64, max_val: i64) -> (r: i64)
    ensures
        r == ring_clamp(value as int, min_val as int, max_val as int),
{
    let a = if value < min_val {
        min_val
    } else {
        value
    };
    if a > max_val {
        max_val
    } else {
        a
    }
}

/// Exec form of `trunc_div` for bounded operands.
fn div_toward_zero(n: i64, d: i64) -> (r: i64)
    requires
        -17592186044416 <= n <= 17592186044416,
        -17592186044416 <= d <= 17592186044416,
    ensures
        r == trunc_div(n as int, d as int),
{
    if d == 0 {
        return 0;
    }
    let an: u64 = if n < 0 {
        (-n) as u64
    } else {
        n as u64
    };
    let ad: u64 = if d < 0 {
        (-d) as u64
    } else {
        d as u64
    };
    let q = an / ad;
    proof {
        vstd::arithmetic::div_mod::lemma_div_is_ordered_by_denominator(an as int, 1, ad as int);
    }
    if (n < 0) != (d < 0) {
        -(q as i64)
    } else {
        q as i64
    }
}

/// Bound on one weighted sample: `WEIGHT_ONE * MAX_SAMPLE`.
const TERM_BOUND: i64 = 1095216660480;

/// One output sample of a pass over the taps `taps`, whose samples are
/// `vals` (`vals[k]` is the sample at `taps[k]`'s index).
pub fn convolve_taps(taps: &Vec<Tap>, vals: &Vec<i64>, Ghost(t): Ghost<Seq<(int, int)>>, Ghost(
    f,
): Ghost<spec_fn(int) -> int>) -> (r: i64)
    requires
        taps_are(taps@, t),
        weights_bounded(taps@),
        vals@.len() == taps@.len(),
        forall|k: int| 0 <= k < t.len() ==> #[trigger] vals@[k] == f(t[k].0),
        samples_in_range(t, f),
    ensures
        r == convolve(t, f),
{
    let mut sum: i64 = 0;
    let mut total: i64 = 0;
    let mut lo: i64 = MAX_SAMPLE;
    let mut hi: i64 = 0;
    let mut k: usize = 0;
    while k < taps.len()
        invariant
            taps_are(taps@, t),
            weights_bounded(taps@),
            vals@.len() == taps@.len(),
            forall|i: int| 0 <= i < t.len() ==> #[trigger] vals@[i] == f(t[i].0),
            samples_in_range(t, f),
            0 <= k <= taps@.len(),
            sum == weighted_sum(t.take(k as int), f),
            total == weight_total(t.take(k as int)),
            lo == window_min(t.take(k as int), f),
            hi == window_max(t.take(k as int), f),
            -(k as int) * TERM_BOUND <= sum <= (k as int) * TERM_BOUND,
            -(k as int) * WEIGHT_ONE <= total <= (k as int) * WEIGHT_ONE,
        decreases taps@.len() - k,
    {
        let w = taps[k].weight;
        let v = vals[k];
        proof {
            assert(taps@[k as int].weight == t[k as int].1);
            assert(0 <= f(t[k as int].0) <= MAX_SAMPLE);
            assert(-TERM_BOUND <= w * v <= TERM_BOUND) by (nonlinear_arith)
                requires
                    -WEIGHT_ONE <= w <= WEIGHT_ONE,
                    0 <= v <= MAX_SAMPLE,
            ;
            let tk = t.take(k + 1);
            assert(tk.drop_last() =~= t.take(k as int));
            assert(tk.last() == t[k as int]);
        }
        sum = sum + w * v;
        total = total + w;
        if v < lo {
            lo = v;
        }
        if v > hi {
            hi = v;
        }
        k = k + 1;
    }
    proof {
        assert(t.take(k as int) =~= t);
    }
    let mean = div_toward_zero(sum, total);
    anti_ringing_clamp(mean, lo, hi)
}

/// Pass one for one row: channel values of every destination column of
/// source row `y`.
fn horizontal_row(
    src: &[u8],
    src_w: u32,
    src_h: u32,
    dst_w: u32,
    x_taps: &Vec<Vec<Tap>>,
    y: usize,
) -> (r: Vec<[i64; 4]>)
    requires
        crate::axis::axis_ok(src_w as int, dst_w as int),
        crate::image::dims_ok(src_w as int, src_h as int),
        src@.len() == src_w * src_h * 4,
        y < src_h,
        x_taps@.len() == dst_w,
        forall|i: int|
            0 <= i < dst_w ==> taps_are(
                #[trigger] x_taps@[i]@,
                lanczos_taps(src_w as int, dst_w as int, i),
            ),
        forall|i: int| 0 <= i < dst_w ==> taps_bounded(#[trigger] x_taps@[i]@, src_w as int),
    ensures
        r@.len() == dst_w,
        forall|x: int, c: int|
            0 <= x < dst_w && 0 <= c < 4 ==> #[trigger] r@[x]@[c] == horizontal_sample(
                src@,
                src_w as int,
                dst_w as int,
                x,
                y as int,
                c,
            ),
{
    let mut row: Vec<[i64; 4]> = Vec::with_capacity(dst_w as usize);
    let mut x: usize = 0;
    while x < dst_w as usize
        invariant
            crate::axis::axis_ok(src_w as int, dst_w as int),
            crate::image::dims_ok(src_w as int, src_h as int),
            src@.len() == src_w * src_h * 4,
            y < src_h,
            x_taps@.len() == dst_w,
            forall|i: int|
                0 <= i < dst_w ==> taps_are(
                    #[trigger] x_taps@[i]@,
                    lanczos_taps(src_w as int, dst_w as int, i),
                ),
            forall|i: int| 0 <= i < dst_w ==> taps_bounded(#[trigger] x_taps@[i]@, src_w as int),
            0 <= x <= dst_w,
            row@.len() == x,
            forall|xx: int, c: int|
                0 <= xx < x && 0 <= c < 4 ==> #[trigger] row@[xx]@[c] == horizontal_sample(
                    src@,
                    src_w as int,
                    dst_w as int,
                    xx,
                    y as int,
                    c,
                ),
        decreases dst_w - x,
    {
        let taps = &x_taps[x];
        let ghost t = lanczos_taps(src_w as int, dst_w as int, x as int);
        let mut px: [i64; 4] = [0i64; 4];
        let mut c: usize = 0;
        while c < 4
            invariant
                crate::image::dims_ok(src_w as int, src_h as int),
                src@.len() == src_w * src_h * 4,
                y < src_h,
                src_w <= 65535,
                taps_are(taps@, t),
                taps_bounded(taps@, src_w as int),
                t == lanczos_taps(src_w as int, dst_w as int, x as int),
                0 <= c <= 4,
                forall|cc: int|
                    0 <= cc < c ==> #[trigger] px@[cc] == horizontal_sample(
                        src@,
                        src_w as int,
                        dst_w as int,
                        x as int,
                        y as int,
                        cc,
                    ),
            decreases 4 - c,
        {
            let ghost f = |j: int| SAMPLE_ONE * channel(src@, src_w as int, j, y as int, c as int) as int;
            let mut vals: Vec<i64> = Vec::with_capacity(taps.len());
            let mut k: usize = 0;
            while k < taps.len()
                invariant
                    crate::image::dims_ok(src_w as int, src_h as int),
                    src@.len() == src_w * src_h * 4,
                    y < src_h,
                    c < 4,
                    taps_are(taps@, t),
                    taps_bounded(taps@, src_w as int),
                    f == (|j: int| SAMPLE_ONE * channel(src@, src_w as int, j, y as int, c as int) as int),
                    0 <= k <= taps@.len(),
                    vals@.len() == k,
                    forall|i: int| 0 <= i < k ==> #[trigger] vals@[i] == f(t[i].0),
                decreases taps@.len() - k,
            {
                let j = taps[k].index;
                proof {
                    assert(taps@[k as int].index < src_w);
                    lemma_index_bounds(src_w as int, src_h as int, j as int, y as int, c as int);
                    lemma_index_bounds(src_w as int, src_h as int, j as int, y as int, 0);
                }
                let b = src[(y * src_w as usize + j) * 4 + c];
                vals.push(SAMPLE_ONE * b as i64);
                k = k + 1;
            }
            proof {
                assert forall|i: int| 0 <= i < t.len() implies 0 <= #[trigger] f(t[i].0)
                    <= MAX_SAMPLE by {
                    let b = channel(src@, src_w as int, t[i].0, y as int, c as int);
                    assert(0 <= b <= 255);
                }
            }
            px[c] = convolve_taps(taps, &vals, Ghost(t), Ghost(f));
            c = c + 1;
        }
        row.push(px);
        x = x + 1;
    }
    row
}

/// Pass one: every source row resampled along the rows.
fn horizontal_pass(src: &[u8], src_w: u32, src_h: u32, dst_w: u32) -> (r: Vec<Vec<[i64; 4]>>)
    requires
        crate::axis::axis_ok(src_w as int, dst_w as int),
        crate::image::dims_ok(src_w as int, src_h as int),
        src@.len() == src_w * src_h * 4,
    ensures
        r@.len() == src_h,
        forall|y: int| 0 <= y < src_h ==> (#[trigger] r@[y])@.len() == dst_w,
        forall|x: int, y: int, c: int|
            0 <= x < dst_w && 0 <= y < src_h && 0 <= c < 4 ==> #[trigger] r@[y]@[x]@[c]
                == horizontal_sample(src@, src_w as int, dst_w as int, x, y, c),
{
    let x_taps = lanczos_axis(src_w, dst_w);
    let mut rows: Vec<Vec<[i64; 4]>> = Vec::with_capacity(src_h as usize);
    let mut y: usize = 0;
    while y < src_h as usize
        invariant
            crate::axis::axis_ok(src_w as int, dst_w as int),
            crate::image::dims_ok(src_w as int, src_h as int),
            src@.len() == src_w * src_h * 4,
            x_taps@.len() == dst_w,
            forall|i: int|
                0 <= i < dst_w ==> taps_are(
                    #[trigger] x_taps@[i]@,
                    lanczos_taps(src_w as int, dst_w as int, i),
                ),
            forall|i: int| 0 <= i < dst_w ==> taps_bounded(#[trigger] x_taps@[i]@, src_w as int),
            0 <= y <= src_h,
            rows@.len() == y,
            forall|yy: int| 0 <= yy < y ==> (#[trigger] rows@[yy])@.len() == dst_w,
            forall|x: int, yy: int, c: int|
                0 <= x < dst_w && 0 <= yy < y && 0 <= c < 4 ==> #[trigger] rows@[yy]@[x]@[c]
                    == horizontal_sample(src@, src_w as int, dst_w as int, x, yy, c),
        decreases src_h - y,
    {
        let row = horizontal_row(src, src_w, src_h, dst_w, &x_taps, y);
        rows.push(row);
        y = y + 1;
    }
    rows
}

/// Fills `dst` with the separable Lanczos resampling of `src`.
pub fn lanczos_into(src: &[u8], src_w: u32, src_h: u32, dst: &mut [u8], dst_w: u32, dst_h: u32)
    requires
        resample_ready(
            src@.len() as int,
            src_w as int,
            src_h as int,
            old(dst)@.len() as int,
            dst_w as int,
            dst_h as int,
        ),
    ensures
        image_matches(
            final(dst)@,
            dst_w as int,
            dst_h as int,
            lanczos_pixel(src@, src_w as int, src_h as int, dst_w as int, dst_h as int),
        ),
{
    let ghost g = lanczos_pixel(src@, src_w as int, src_h as int, dst_w as int, dst_h as int);
    let temp = horizontal_pass(src, src_w, src_h, dst_w);
    let y_taps = lanczos_axis(src_h, dst_h);
    let dw = dst_w as usize;
    let dh = dst_h as usize;
    let mut y: usize = 0;
    while y < dh
        invariant
            resample_ready(
                src@.len() as int,
                src_w as int,
                src_h as int,
                dst@.len() as int,
                dst_w as int,
                dst_h as int,
            ),
            dw == dst_w,
            dh == dst_h,
            temp@.len() == src_h,
            forall|yy: int| 0 <= yy < src_h ==> (#[trigger] temp@[yy])@.len() == dst_w,
            forall|x: int, yy: int, c: int|
                0 <= x < dst_w && 0 <= yy < src_h && 0 <= c < 4 ==> #[trigger] temp@[yy]@[x]@[c]
                    == horizontal_sample(src@, src_w as int, dst_w as int, x, yy, c),
            y_taps@.len() == dst_h,
            forall|i: int|
                0 <= i < dst_h ==> taps_are(
                    #[trigger] y_taps@[i]@,
                    lanczos_taps(src_h as int, dst_h as int, i),
                ),
            forall|i: int| 0 <= i < dst_h ==> taps_bounded(#[trigger] y_taps@[i]@, src_h as int),
            g == lanczos_pixel(src@, src_w as int, src_h as int, dst_w as int, dst_h as int),
            0 <= y <= dh,
            written_before(dst@, dw as int, g, 0, y as int),
        decreases dh - y,
    {
        let taps = &y_taps[y];
        let ghost t = lanczos_taps(src_h as int, dst_h as int, y as int);
        let mut x: usize = 0;
        while x < dw
            invariant
                resample_ready(
                    src@.len() as int,
                    src_w as int,
                    src_h as int,
                    dst@.len() as int,
                    dst_w as int,
                    dst_h as int,
                ),
                dw == dst_w,
                dh == dst_h,
                temp@.len() == src_h,
                forall|yy: int| 0 <= yy < src_h ==> (#[trigger] temp@[yy])@.len() == dst_w,
                forall|xx: int, yy: int, c: int|
                    0 <= xx < dst_w && 0 <= yy < src_h && 0 <= c < 4
                        ==> #[trigger] temp@[yy]@[xx]@[c] == horizontal_sample(
                        src@,
                        src_w as int,
                        dst_w as int,
                        xx,
                        yy,
                        c,
                    ),
                taps_are(taps@, t),
                taps_bounded(taps@, src_h as int),
                t == lanczos_taps(src_h as int, dst_h as int, y as int),
                g == lanczos_pixel(src@, src_w as int, src_h as int, dst_w as int, dst_h as int),
                0 <= y < dh,
                0 <= x <= dw,
                written_before(dst@, dw as int, g, x as int, y as int),
            decreases dw - x,
        {
            let mut px: [u8; 4] = [0u8; 4];
            let mut c: usize = 0;
            while c < 4
                invariant
                    resample_ready(
                        src@.len() as int,
                        src_w as int,
                        src_h as int,
                        dst@.len() as int,
                        dst_w as int,
                        dst_h as int,
                    ),
                    temp@.len() == src_h,
                    forall|yy: int| 0 <= yy < src_h ==> (#[trigger] temp@[yy])@.len() == dst_w,
                    forall|xx: int, yy: int, cc: int|
                        0 <= xx < dst_w && 0 <= yy < src_h && 0 <= cc < 4
                            ==> #[trigger] temp@[yy]@[xx]@[cc] == horizontal_sample(
                            src@,
                            src_w as int,
                            dst_w as int,
                            xx,
                            yy,
                            cc,
                        ),
                    taps_are(taps@, t),
                    taps_bounded(taps@, src_h as int),
                    t == lanczos_taps(src_h as int, dst_h as int, y as int),
                    g == lanczos_pixel(
                        src@,
                        src_w as int,
                        src_h as int,
                        dst_w as int,
                        dst_h as int,
                    ),
                    y < dh,
                    x < dw,
                    dw == dst_w,
                    dh == dst_h,
                    0 <= c <= 4,
                    forall|cc: int| 0 <= cc < c ==> #[trigger] px@[cc] == g(x as int, y as int, cc),
                decreases 4 - c,
            {
                let ghost f = |j: int| horizontal_sample(src@, src_w as int, dst_w as int, x as int, j, c as int);
                let mut vals: Vec<i64> = Vec::with_capacity(taps.len());
                let mut k: usize = 0;
                while k < taps.len()
                    invariant
                        temp@.len() == src_h,
                        forall|yy: int| 0 <= yy < src_h ==> (#[trigger] temp@[yy])@.len() == dst_w,
                        forall|xx: int, yy: int, cc: int|
                            0 <= xx < dst_w && 0 <= yy < src_h && 0 <= cc < 4
                                ==> #[trigger] temp@[yy]@[xx]@[cc] == horizontal_sample(
                                src@,
                                src_w as int,
                                dst_w as int,
                                xx,
                                yy,
                                cc,
                            ),
                        taps_are(taps@, t),
                        taps_bounded(taps@, src_h as int),
                        x < dw,
                        dw == dst_w,
                        c < 4,
                        f == (|j: int|
                            horizontal_sample(src@, src_w as int, dst_w as int, x as int, j, c as int)),
                        0 <= k <= taps@.len(),
                        vals@.len() == k,
                        forall|i: int| 0 <= i < k ==> #[trigger] vals@[i] == f(t[i].0),
                    decreases taps@.len() - k,
                {
                    let j = taps[k].index;
                    proof {
                        assert(taps@[k as int].index < src_h);
                    }
                    vals.push(temp[j][x][c]);
                    k = k + 1;
                }
                proof {
                    assert forall|i: int| 0 <= i < t.len() implies 0 <= #[trigger] f(t[i].0)
                        <= MAX_SAMPLE by {
                        let j = t[i].0;
                        assert(taps@[i].index == j);
                        let ghost h = |jj: int|
                            SAMPLE_ONE * channel(src@, src_w as int, jj, j, c as int) as int;
                        let tx = lanczos_taps(src_w as int, dst_w as int, x as int);
                        assert forall|m: int| 0 <= m < tx.len() implies 0 <= #[trigger] h(tx[m].0)
                            <= MAX_SAMPLE by {
                            let b = channel(src@, src_w as int, tx[m].0, j, c as int);
                            assert(0 <= b <= 255);
                        }
                        lemma_convolve_bounds(tx, h);
                    }
                    }
                let v = convolve_taps(taps, &vals, Ghost(t), Ghost(f));
                proof {
                    lemma_convolve_bounds(t, f);
                    assert(v == vertical_sample(
                        src@,
                        src_w as int,
                        src_h as int,
                        dst_w as int,
                        dst_h as int,
                        x as int,
                        y as int,
                        c as int,
                    ));
                }
                px[c] = (v / SAMPLE_ONE) as u8;
                c = c + 1;
            }
            put_pixel(dst, dw, dh, x, y, px, Ghost(g));
            x = x + 1;
        }
        proof {
            lemma_next_row(dst@, dw as int, g, y as int);
        }
        y = y + 1;
    }
    proof {
        lemma_written_all(dst@, dw as int, dh as int, g);
    }
}

/// Resizes with separable Lanczos (three lobes) and anti-ringing clamping.
/// Returns the call's status; on `RESIZE_OK` `dst` holds the resampled image,
/// otherwise it is untouched.
pub fn resize_rgba_lanczos(
    src_addr: usize,
    src: &[u8],
    src_w: u32,
    src_h: u32,
    dst_addr: usize,
    dst: &mut [u8],
    dst_w: u32,
    dst_h: u32,
) -> (r: i32)
    ensures
        r == call_status(
            src_addr as int,
            src@.len() as int,
            src_w as int,
            src_h as int,
            dst_addr as int,
            old(dst)@.len() as int,
            dst_w as int,
            dst_h as int,
        ),
        r != RESIZE_OK ==> final(dst)@ == old(dst)@,
        r == RESIZE_OK ==> image_matches(
            final(dst)@,
            dst_w as int,
            dst_h as int,
            lanczos_pixel(src@, src_w as int, src_h as int, dst_w as int, dst_h as int),
        ),
{
    let status = check_call(src_addr, src.len(), src_w, src_h, dst_addr, dst.len(), dst_w, dst_h);
    if status != RESIZE_OK {
        return status;
    }
    lanczos_into(src, src_w, src_h, dst, dst_w, dst_h);
    RESIZE_OK
}

} // verus!
