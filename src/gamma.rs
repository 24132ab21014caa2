//! sRGB transfer function in integer arithmetic, and its lookup tables.

use vstd::prelude::*;
use crate::arith::{lemma_product_bound, lemma_quotient_bound};

verus! {

/// Linear intensity 1.0: linear values run over `0 ..= LINEAR_ONE`.
pub const LINEAR_ONE: u32 = 65535;

/// Linear units per quantisation level of the encoding table
/// (`LINEAR_ONE / 255`).
pub const LINEAR_PER_LEVEL: u32 = 257;

/// Entries of each gamma table: one per byte value.
pub const GAMMA_LUT_SIZE: usize = 256;

/// Fixed-point unit of the power computation (2^24).
pub const POW_ONE: u128 = 16777216;

pub open spec fn pow5(r: int) -> int {
    r * r * r * r * r
}

/// Whether `r` is the floor of the fifth root of `n`.
pub open spec fn is_fifth_root(n: int, r: int) -> bool {
    0 <= r && pow5(r) <= n < pow5(r + 1)
}

/// The floor of the fifth root of `n >= 0`.
pub open spec fn fifth_root(n: int) -> int {
    choose|r: int| is_fifth_root(n, r)
}

/// Decoded linear intensity of the sRGB byte `b`, in units of
/// `1 / LINEAR_ONE`, rounded down: `b / 255 / 12.92` up to byte 10 (the
/// encoded threshold 0.04045), else `((b / 255 + 0.055) / 1.055) ^ 2.4`,
/// computed as `u^2 * (u^2)^(1/5)` in 24-bit fixed point.
pub open spec fn srgb_decode(b: int) -> int {
    if b <= 10 {
        b * 6553500 / 329460
    } else {
        let n = 1000 * b + 14025;
        let u2 = n * n * (POW_ONE as int) / (269025 * 269025) as int;
        let r = fifth_root(u2 * (POW_ONE * POW_ONE * POW_ONE * POW_ONE) as int);
        u2 * r * (LINEAR_ONE as int) / (POW_ONE * POW_ONE) as int
    }
}

/// The largest byte `b' <= b` whose decoded value is at most `v` (0 when
/// there is none).
pub open spec fn srgb_at_most(v: int, b: int) -> int
    decreases b,
{
    if b <= 0 {
        0
    } else if srgb_decode(b) <= v {
        b
    } else {
        srgb_at_most(v, b - 1)
    }
}

/// Encoded sRGB byte of the linear value `v`: the largest byte whose decoded
/// value does not exceed `v`, that is `floor(255 * encode(v))` for the sRGB
/// encoding function.
pub open spec fn srgb_encode(v: int) -> int {
    srgb_at_most(v, 255)
}

/// Encoded byte of quantisation level `k` (linear value `k / 255`).
pub open spec fn level_encode(k: int) -> int {
    srgb_encode(k * LINEAR_PER_LEVEL)
}

/// The linear value of an alpha byte: alpha is already linear.
pub open spec fn alpha_linear(a: int) -> int {
    a * LINEAR_PER_LEVEL
}

pub proof fn lemma_pow5_monotone(a: int, b: int)
    requires
        0 <= a <= b,
    ensures
        pow5(a) <= pow5(b),
{
    lemma_product_bound(a, b, a, b);
    lemma_product_bound(a * a, b * b, a, b);
    lemma_product_bound(a * a * a, b * b * b, a, b);
    lemma_product_bound(a * a * a * a, b * b * b * b, a, b);
}

pub proof fn lemma_fifth_root_unique(n: int, r: int)
    requires
        is_fifth_root(n, r),
    ensures
        fifth_root(n) == r,
{
    let c = fifth_root(n);
    assert(is_fifth_root(n, c));
    if c < r {
        lemma_pow5_monotone(c + 1, r);
    } else if r < c {
        lemma_pow5_monotone(r + 1, c);
    }
}

/// The floor of the fifth root of `n`, by bisection.
pub fn fifth_root_floor(n: u128) -> (r: u128)
    requires
        n <= POW_ONE * POW_ONE * POW_ONE * POW_ONE * POW_ONE,
    ensures
        is_fifth_root(n as int, r as int),
        r <= POW_ONE,
{
    let mut lo: u128 = 0;
    let mut hi: u128 = POW_ONE + 1;
    proof {
        assert(pow5(0) == 0);
        assert(pow5(POW_ONE as int) == POW_ONE * POW_ONE * POW_ONE * POW_ONE * POW_ONE);
        lemma_pow5_monotone(POW_ONE as int, POW_ONE + 1);
        assert(pow5(POW_ONE + 1) > pow5(POW_ONE as int)) by (nonlinear_arith)
            requires
                pow5(POW_ONE as int) == POW_ONE * POW_ONE * POW_ONE * POW_ONE * POW_ONE,
                pow5(POW_ONE + 1) == (POW_ONE + 1) * (POW_ONE + 1) * (POW_ONE + 1) * (POW_ONE + 1)
                    * (POW_ONE + 1),
        ;
    }
    while hi - lo > 1
        invariant
            0 <= lo < hi <= POW_ONE + 1,
            pow5(lo as int) <= n,
            n < pow5(hi as int),
        decreases hi - lo,
    {
        let mid = lo + (hi - lo) / 2;
        proof {
            lemma_product_bound(mid as int, POW_ONE as int, mid as int, POW_ONE as int);
            lemma_product_bound(mid * mid, POW_ONE * POW_ONE, mid as int, POW_ONE as int);
            lemma_product_bound(
                mid * mid * mid,
                POW_ONE * POW_ONE * POW_ONE,
                mid as int,
                POW_ONE as int,
            );
            lemma_product_bound(
                mid * mid * mid * mid,
                POW_ONE * POW_ONE * POW_ONE * POW_ONE,
                mid as int,
                POW_ONE as int,
            );
        }
        let p = mid * mid * mid * mid * mid;
        if p <= n {
            lo = mid;
        } else {
            hi = mid;
        }
    }
    proof {
        assert(hi == lo + 1);
    }
    lo
}

/// Decodes the sRGB byte `b` to a linear intensity in `0 ..= LINEAR_ONE`.
pub fn srgb_to_linear(b: u8) -> (r: u16)
    ensures
        r == srgb_decode(b as int),
{
    if b <= 10 {
        return (b as u32 * 6553500 / 329460) as u16;
    }
    let n = 1000 * b as u128 + 14025;
    proof {
        lemma_product_bound(n as int, 269025, n as int, 269025);
        lemma_product_bound(n * n, (269025 * 269025) as int, POW_ONE as int, POW_ONE as int);
        lemma_quotient_bound(
            n * n * POW_ONE,
            (269025 * 269025) as int * POW_ONE,
            (269025 * 269025) as int,
        );
        vstd::arithmetic::div_mod::lemma_div_multiples_vanish(
            POW_ONE as int,
            (269025 * 269025) as int,
        );
    }
    let u2 = n * n * POW_ONE / 72374450625;
    proof {
        lemma_product_bound(
            u2 as int,
            POW_ONE as int,
            (POW_ONE * POW_ONE * POW_ONE * POW_ONE) as int,
            (POW_ONE * POW_ONE * POW_ONE * POW_ONE) as int,
        );
    }
    let root = fifth_root_floor(u2 * (POW_ONE * POW_ONE * POW_ONE * POW_ONE));
    proof {
        lemma_fifth_root_unique(
            u2 * (POW_ONE * POW_ONE * POW_ONE * POW_ONE) as int,
            root as int,
        );
        lemma_product_bound(u2 as int, POW_ONE as int, root as int, POW_ONE as int);
        lemma_product_bound(
            u2 * root,
            POW_ONE * POW_ONE,
            LINEAR_ONE as int,
            LINEAR_ONE as int,
        );
        lemma_quotient_bound(
            u2 * root * LINEAR_ONE,
            POW_ONE * POW_ONE * LINEAR_ONE,
            (POW_ONE * POW_ONE) as int,
        );
        vstd::arithmetic::div_mod::lemma_div_multiples_vanish(
            LINEAR_ONE as int,
            (POW_ONE * POW_ONE) as int,
        );
        assert(POW_ONE * POW_ONE * LINEAR_ONE == LINEAR_ONE * (POW_ONE * POW_ONE));
    }
    (u2 * root * LINEAR_ONE as u128 / (POW_ONE * POW_ONE)) as u16
}

/// Encodes the linear value `v` to the sRGB byte: the largest byte whose
/// decoded value does not exceed `v`.
pub fn linear_to_srgb(v: u16) -> (r: u8)
    ensures
        r == srgb_encode(v as int),
{
    let mut b: u8 = 255;
    while b > 0 && srgb_to_linear(b) > v
        invariant
            srgb_at_most(v as int, b as int) == srgb_encode(v as int),
        decreases b,
    {
        b = b - 1;
    }
    b
}

/// The two 256-entry gamma tables: decoded linear value of each byte, and
/// encoded byte of each of the 256 linear quantisation levels.
pub struct GammaTables {
    pub to_linear: Vec<u16>,
    pub to_srgb: Vec<u8>,
}

impl GammaTables {
    /// Whether both tables hold what their names say.
    pub open spec fn wf(&self) -> bool {
        &&& self.to_linear@.len() == GAMMA_LUT_SIZE
        &&& self.to_srgb@.len() == GAMMA_LUT_SIZE
        &&& forall|b: int| 0 <= b < 256 ==> #[trigger] self.to_linear@[b] == srgb_decode(b)
        &&& forall|k: int| 0 <= k < 256 ==> #[trigger] self.to_srgb@[k] == level_encode(k)
    }

    /// Decoded linear value of the sRGB byte `b`, by table lookup.
    pub fn srgb_to_linear_lut(&self, b: u8) -> (r: u16)
        requires
            self.wf(),
        ensures
            r == srgb_decode(b as int),
    {
        self.to_linear[b as usize]
    }

    /// Encoded sRGB byte of the linear value `v`, quantised to 256 levels
    /// (rounded down) and looked up in the encoding table.
    pub fn linear_to_srgb_lut(&self, v: u16) -> (r: u8)
        requires
            self.wf(),
        ensures
            r == level_encode((v as int) / (LINEAR_PER_LEVEL as int)),
    {
        self.to_srgb[(v / 257) as usize]
    }
}

/// Builds the gamma tables.
pub fn init_gamma_luts() -> (r: GammaTables)
    ensures
        r.wf(),
{
    let mut to_linear: Vec<u16> = Vec::with_capacity(GAMMA_LUT_SIZE);
    let mut i: usize = 0;
    while i < GAMMA_LUT_SIZE
        invariant
            0 <= i <= 256,
            to_linear@.len() == i,
            forall|b: int| 0 <= b < i ==> #[trigger] to_linear@[b] == srgb_decode(b),
        decreases 256 - i,
    {
        to_linear.push(srgb_to_linear(i as u8));
        i = i + 1;
    }
    let mut to_srgb: Vec<u8> = Vec::with_capacity(GAMMA_LUT_SIZE);
    let mut k: usize = 0;
    while k < GAMMA_LUT_SIZE
        invariant
            0 <= k <= 256,
            to_linear@.len() == 256,
            forall|b: int| 0 <= b < 256 ==> #[trigger] to_linear@[b] == srgb_decode(b),
            to_srgb@.len() == k,
            forall|j: int| 0 <= j < k ==> #[trigger] to_srgb@[j] == level_encode(j),
        decreases 256 - k,
    {
        let v = (k as u32) * LINEAR_PER_LEVEL;
        let mut b: usize = 255;
        while b > 0 && to_linear[b] as u32 > v
            invariant
                0 <= b <= 255,
                to_linear@.len() == 256,
                forall|bb: int| 0 <= bb < 256 ==> #[trigger] to_linear@[bb] == srgb_decode(bb),
                srgb_at_most(v as int, b as int) == level_encode(k as int),
            decreases b,
        {
            b = b - 1;
        }
        to_srgb.push(b as u8);
        k = k + 1;
    }
    GammaTables { to_linear, to_srgb }
}

} // verus!
