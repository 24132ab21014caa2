//! Per-axis mapping of destination samples to source samples: nearest indices,
//! bilinear pairs with exact fractional weights, and Lanczos tap lists.

use vstd::prelude::*;
use crate::kernel::{lanczos_kernel, lanczos_weight, WEIGHT_ONE};
use crate::validate::MAX_DIMENSION;

verus! {

// Along one axis a destination coordinate `i` of `d` samples maps to the
// source coordinate `(i + 1/2) * s / d - 1/2`, that is
// `((2i + 1) * s - d) / (2d)`, kept here as an exact fraction.

/// Numerator of the source coordinate of destination sample `i`, over `2d`.
pub open spec fn coord_num(s: int, d: int, i: int) -> int {
    (2 * i + 1) * s - d
}

/// Whether `s` and `d` are sizes that an axis can have.
pub open spec fn axis_ok(s: int, d: int) -> bool {
    1 <= s <= MAX_DIMENSION && 1 <= d <= MAX_DIMENSION
}

/// Source sample that nearest-neighbour resampling reads for destination
/// sample `i`: `floor((i + 1/2) * s / d)`, at most `s - 1`.
pub open spec fn nearest_source(s: int, d: int, i: int) -> int {
    let n = (2 * i + 1) * s / (2 * d);
    if n < s - 1 {
        n
    } else {
        s - 1
    }
}

/// `floor` of the source coordinate of destination sample `i`.
pub open spec fn coord_floor(s: int, d: int, i: int) -> int {
    coord_num(s, d, i) / (2 * d)
}

/// Fractional part of the source coordinate, in units of `1 / (2d)`.
pub open spec fn coord_frac(s: int, d: int, i: int) -> int {
    coord_num(s, d, i) % (2 * d)
}

pub open spec fn clamp_index(v: int, s: int) -> int {
    if v < 0 {
        0
    } else if v > s - 1 {
        s - 1
    } else {
        v
    }
}

/// First source sample of the bilinear pair of destination sample `i`.
pub open spec fn linear_lo(s: int, d: int, i: int) -> int {
    clamp_index(coord_floor(s, d, i), s)
}

/// Second source sample of the bilinear pair of destination sample `i`.
pub open spec fn linear_hi(s: int, d: int, i: int) -> int {
    let n = coord_floor(s, d, i) + 1;
    clamp_index(
        if n < s - 1 {
            n
        } else {
            s - 1
        },
        s,
    )
}

/// The two source samples and the blend weight (over `2d`) of one
/// destination sample.
#[derive(Clone, Copy)]
pub struct LinearSample {
    pub lo: usize,
    pub hi: usize,
    pub frac: u64,
}

/// Whether `e` is the bilinear sample of destination coordinate `i`.
pub open spec fn linear_sample_is(e: LinearSample, s: int, d: int, i: int) -> bool {
    &&& e.lo == linear_lo(s, d, i)
    &&& e.hi == linear_hi(s, d, i)
    &&& e.frac == coord_frac(s, d, i)
}

proof fn lemma_shifted_division(x: int, m: int)
    requires
        m > 0,
        x >= 0,
    ensures
        (x - m) / m == x / m - 1,
        (x - m) % m == x % m,
{
    vstd::arithmetic::div_mod::lemma_fundamental_div_mod(x, m);
    vstd::arithmetic::div_mod::lemma_mod_bound(x, m);
    assert(x - m == (x / m - 1) * m + x % m) by (nonlinear_arith)
        requires
            x == m * (x / m) + x % m,
    ;
    vstd::arithmetic::div_mod::lemma_fundamental_div_mod_converse(
        x - m,
        m,
        x / m - 1,
        x % m,
    );
}

pub proof fn lemma_coord_facts(s: int, d: int, i: int)
    requires
        axis_ok(s, d),
        0 <= i < d,
    ensures
        -1 <= coord_floor(s, d, i) <= s - 1,
        0 <= coord_frac(s, d, i) < 2 * d,
        0 <= nearest_source(s, d, i) < s,
{
    let t = (2 * i + 1) * s + d;
    assert(t >= 0) by (nonlinear_arith)
        requires
            i >= 0,
            s >= 1,
            d >= 1,
            t == (2 * i + 1) * s + d,
    ;
    assert(coord_num(s, d, i) == t - 2 * d);
    lemma_shifted_division(t, 2 * d);
    vstd::arithmetic::div_mod::lemma_mod_bound(t, 2 * d);
    vstd::arithmetic::div_mod::lemma_div_pos_is_pos(t, 2 * d);
    // coord_num < 2ds, so its floor is below s
    assert(coord_num(s, d, i) < 2 * d * s) by (nonlinear_arith)
        requires
            i < d,
            s >= 1,
            d >= 1,
            coord_num(s, d, i) == (2 * i + 1) * s - d,
    ;
    vstd::arithmetic::div_mod::lemma_div_is_ordered(coord_num(s, d, i), 2 * d * s - 1, 2 * d);
    assert((2 * d * s - 1) / (2 * d) == s - 1) by {
        assert(2 * d * s - 1 == (s - 1) * (2 * d) + (2 * d - 1)) by (nonlinear_arith);
        vstd::arithmetic::div_mod::lemma_fundamental_div_mod_converse(
            2 * d * s - 1,
            2 * d,
            s - 1,
            2 * d - 1,
        );
    }
    assert((2 * i + 1) * s >= 0) by (nonlinear_arith)
        requires
            i >= 0,
            s >= 1,
    ;
    vstd::arithmetic::div_mod::lemma_div_pos_is_pos((2 * i + 1) * s, 2 * d);
}

/// For each destination column `i < dst`, the source pixel index that
/// nearest-neighbour resampling copies.
pub fn nearest_axis(src: u32, dst: u32) -> (r: Vec<usize>)
    requires
        axis_ok(src as int, dst as int),
    ensures
        r@.len() == dst,
        forall|i: int| 0 <= i < dst ==> #[trigger] r@[i] == nearest_source(src as int, dst as int, i),
{
    let mut r: Vec<usize> = Vec::with_capacity(dst as usize);
    let s = src as u64;
    let d = dst as u64;
    let mut i: u64 = 0;
    while i < d
        invariant
            s == src,
            d == dst,
            axis_ok(s as int, d as int),
            0 <= i <= d,
            r@.len() == i,
            forall|k: int| 0 <= k < i ==> #[trigger] r@[k] == nearest_source(s as int, d as int, k),
        decreases d - i,
    {
        proof {
            lemma_coord_facts(s as int, d as int, i as int);
            assert((2 * i + 1) * s <= 2 * 65535 * 65535) by (nonlinear_arith)
                requires
                    i < d,
                    d <= 65535,
                    s <= 65535,
            ;
        }
        let n = (2 * i + 1) * s / (2 * d);
        let v = if n < s - 1 {
            n
        } else {
            s - 1
        };
        r.push(v as usize);
        i = i + 1;
    }
    r
}

/// For each destination coordinate `i < dst`, the bilinear pair of source
/// indices and its blend weight `frac / (2 * dst)`.
pub fn linear_axis(src: u32, dst: u32) -> (r: Vec<LinearSample>)
    requires
        axis_ok(src as int, dst as int),
    ensures
        r@.len() == dst,
        forall|i: int|
            0 <= i < dst ==> linear_sample_is(#[trigger] r@[i], src as int, dst as int, i),
{
    let mut r: Vec<LinearSample> = Vec::with_capacity(dst as usize);
    let s = src as u64;
    let d = dst as u64;
    let mut i: u64 = 0;
    while i < d
        invariant
            s == src,
            d == dst,
            axis_ok(s as int, d as int),
            0 <= i <= d,
            r@.len() == i,
            forall|k: int|
                0 <= k < i ==> linear_sample_is(#[trigger] r@[k], s as int, d as int, k),
        decreases d - i,
    {
        proof {
            lemma_coord_facts(s as int, d as int, i as int);
            assert((2 * i + 1) * s + d <= 2 * 65535 * 65535 + 65535) by (nonlinear_arith)
                requires
                    i < d,
                    d <= 65535,
                    s <= 65535,
            ;
            lemma_shifted_division((2 * i + 1) * s + d, 2 * d as int);
        }
        let t = (2 * i + 1) * s + d;
        let q = t / (2 * d);
        let frac = t % (2 * d);
        // q is the floor of the source coordinate plus one
        let lo = if q == 0 {
            0
        } else {
            q - 1
        };
        let hi = if q < s - 1 {
            q
        } else {
            s - 1
        };
        r.push(LinearSample { lo: lo as usize, hi: hi as usize, frac });
        i = i + 1;
    }
    r
}

/// One Lanczos tap: a source index and its kernel weight (in `WEIGHT_ONE`).
#[derive(Clone, Copy)]
pub struct Tap {
    pub index: usize,
    pub weight: i64,
}

/// First candidate source index of the Lanczos window of sample `i`.
pub open spec fn window_start(s: int, d: int, i: int) -> int {
    let c = coord_floor(s, d, i) - 2;
    if c < 0 {
        0
    } else {
        c
    }
}

/// Last candidate source index of the Lanczos window of sample `i`.
pub open spec fn window_end(s: int, d: int, i: int) -> int {
    let c = coord_floor(s, d, i) + 3;
    if c > s - 1 {
        s - 1
    } else {
        c
    }
}

/// Kernel weight of source index `j` for destination sample `i`: the kernel
/// at `(j - coord) / (s / d)`, which is `(2dj - coord_num) / (2s)`.
pub open spec fn tap_weight(s: int, d: int, i: int, j: int) -> int {
    lanczos_weight(2 * d * j - coord_num(s, d, i), 2 * s)
}

/// The taps of the candidates `window_start .. j` whose weight is not zero,
/// in increasing index order.
pub open spec fn taps_before(s: int, d: int, i: int, j: int) -> Seq<(int, int)>
    decreases j - window_start(s, d, i),
{
    if j <= window_start(s, d, i) {
        Seq::empty()
    } else {
        let prev = taps_before(s, d, i, j - 1);
        let w = tap_weight(s, d, i, j - 1);
        if w != 0 {
            prev.push((j - 1, w))
        } else {
            prev
        }
    }
}

/// The Lanczos taps of destination sample `i`: the source indices of the
/// window `[floor(coord) - 2, floor(coord) + 3]` within the image whose
/// kernel weight is not zero, with those weights.
pub open spec fn lanczos_taps(s: int, d: int, i: int) -> Seq<(int, int)> {
    taps_before(s, d, i, window_end(s, d, i) + 1)
}

/// Whether `v` holds exactly the taps `t`.
pub open spec fn taps_are(v: Seq<Tap>, t: Seq<(int, int)>) -> bool {
    &&& v.len() == t.len()
    &&& forall|k: int|
        0 <= k < v.len() ==> (#[trigger] v[k]).index == t[k].0 && v[k].weight == t[k].1
}

/// At most six taps, each with a weight in `[-WEIGHT_ONE, WEIGHT_ONE]`.
pub open spec fn weights_bounded(v: Seq<Tap>) -> bool {
    &&& v.len() <= 6
    &&& forall|k: int| 0 <= k < v.len() ==> -WEIGHT_ONE <= (#[trigger] v[k]).weight <= WEIGHT_ONE
}

/// Bounds that every tap list of an axis of `s` samples meets.
pub open spec fn taps_bounded(v: Seq<Tap>, s: int) -> bool {
    &&& weights_bounded(v)
    &&& forall|k: int| 0 <= k < v.len() ==> (#[trigger] v[k]).index < s
}

proof fn lemma_taps_before_len(s: int, d: int, i: int, j: int)
    ensures
        taps_before(s, d, i, j).len() <= if j <= window_start(s, d, i) {
            0
        } else {
            j - window_start(s, d, i)
        },
    decreases j - window_start(s, d, i),
{
    if j > window_start(s, d, i) {
        lemma_taps_before_len(s, d, i, j - 1);
    }
}

/// The Lanczos taps of destination sample `i` of an axis from `src` to `dst`
/// samples.
pub fn precompute_lanczos_weights(i: u32, src: u32, dst: u32) -> (r: Vec<Tap>)
    requires
        axis_ok(src as int, dst as int),
        i < dst,
    ensures
        taps_are(r@, lanczos_taps(src as int, dst as int, i as int)),
        taps_bounded(r@, src as int),
{
    let s = src as i64;
    let d = dst as i64;
    proof {
        lemma_coord_facts(s as int, d as int, i as int);
        assert((2 * i + 1) * s <= 2 * 65535 * 65535) by (nonlinear_arith)
            requires
                i < d,
                d <= 65535,
                s <= 65535,
        ;
        assert((2 * i + 1) * s >= 0) by (nonlinear_arith)
            requires
                i >= 0,
                s >= 0,
        ;
    }
    let num = (2 * (i as i64) + 1) * s - d;
    let t = num + 2 * d;
    proof {
        lemma_shifted_division(t as int, 2 * d as int);
    }
    let center = t / (2 * d) - 1;
    let start = if center - 2 < 0 {
        0
    } else {
        center - 2
    };
    let end = if center + 3 > s - 1 {
        s - 1
    } else {
        center + 3
    };
    let mut r: Vec<Tap> = Vec::new();
    let mut j = start;
    while j <= end
        invariant
            s == src,
            d == dst,
            axis_ok(s as int, d as int),
            i < d,
            num == coord_num(s as int, d as int, i as int),
            -65535 <= num <= 2 * 65535 * 65535,
            start == window_start(s as int, d as int, i as int),
            end == window_end(s as int, d as int, i as int),
            0 <= start <= j <= end + 1,
            end <= s - 1,
            taps_are(r@, taps_before(s as int, d as int, i as int, j as int)),
            r@.len() <= j - start,
            forall|k: int|
                0 <= k < r@.len() ==> (#[trigger] r@[k]).index < s && -WEIGHT_ONE
                    <= r@[k].weight <= WEIGHT_ONE,
        decreases end + 1 - j,
    {
        proof {
            assert(0 <= 2 * d * j <= 2 * 65535 * 65535) by (nonlinear_arith)
                requires
                    0 <= j <= 65535,
                    1 <= d <= 65535,
            ;
        }
        let w = lanczos_kernel(2 * d * j - num, 2 * s);
        if w != 0 {
            r.push(Tap { index: j as usize, weight: w });
        }
        proof {
            let prev = taps_before(s as int, d as int, i as int, j as int);
            assert(taps_before(s as int, d as int, i as int, j + 1) == if w != 0 {
                prev.push((j as int, w as int))
            } else {
                prev
            });
        }
        j = j + 1;
    }
    proof {
        assert(end + 1 - start <= 6);
    }
    r
}

/// The Lanczos taps of every destination sample of an axis.
pub fn lanczos_axis(src: u32, dst: u32) -> (r: Vec<Vec<Tap>>)
    requires
        axis_ok(src as int, dst as int),
    ensures
        r@.len() == dst,
        forall|i: int|
            0 <= i < dst ==> taps_are(#[trigger] r@[i]@, lanczos_taps(src as int, dst as int, i)),
        forall|i: int| 0 <= i < dst ==> taps_bounded(#[trigger] r@[i]@, src as int),
{
    let mut r: Vec<Vec<Tap>> = Vec::with_capacity(dst as usize);
    let mut i: u32 = 0;
    while i < dst
        invariant
            axis_ok(src as int, dst as int),
            0 <= i <= dst,
            r@.len() == i,
            forall|k: int|
                0 <= k < i ==> taps_are(#[trigger] r@[k]@, lanczos_taps(src as int, dst as int, k)),
            forall|k: int| 0 <= k < i ==> taps_bounded(#[trigger] r@[k]@, src as int),
        decreases dst - i,
    {
        let taps = precompute_lanczos_weights(i, src, dst);
        r.push(taps);
        i = i + 1;
    }
    r
}

} // verus!
