//! The three-lobed Lanczos kernel in fixed point, with the sine evaluated as a
//! polynomial in integer arithmetic.

use vstd::prelude::*;
use crate::arith::{lemma_product_bound, lemma_quotient_bound, lemma_scale_down};

verus! {

/// Fixed-point unit of the trigonometric computations (2^30).
pub const TRIG_ONE: u128 = 1073741824;

/// Pi in units of `TRIG_ONE`, rounded.
pub const PI_Q30: u128 = 3373259426;

/// Fixed-point unit of kernel weights: a weight of 1.0 is `WEIGHT_ONE`
/// (2^20, finer than the 1e-6 below which a tap is negligible).
pub const WEIGHT_ONE: i64 = 1048576;

/// Kernel radius (lobes) of the Lanczos window.
pub const LANCZOS_RADIUS: i64 = 3;

/// Largest denominator accepted by the kernel.
pub const MAX_KERNEL_DENOM: i64 = 1048576;

/// One Horner step of the sine series: `1 - y2 * t / k` in units of `TRIG_ONE`.
pub open spec fn horner_step(y2: int, t: int, k: int) -> int {
    (TRIG_ONE as int) - y2 * t / (k * (TRIG_ONE as int))
}

/// `sin(pi * r / q)` in units of `TRIG_ONE`, for `0 <= r / q <= 1/2`: the
/// series `y - y^3/3! + y^5/5! - y^7/7! + y^9/9!` at `y = pi * r / q`,
/// evaluated in Horner form with each product rounded down.
pub open spec fn sin_quarter(r: int, q: int) -> int {
    let y = r * (PI_Q30 as int) / q;
    let y2 = y * y / (TRIG_ONE as int);
    let t = horner_step(
        y2,
        horner_step(y2, horner_step(y2, horner_step(y2, (TRIG_ONE as int), 72), 42), 20),
        6,
    );
    y * t / (TRIG_ONE as int)
}

/// `sin(pi * a / q)` in units of `TRIG_ONE`, for `a >= 0`, by reduction to
/// the first quarter turn.
pub open spec fn sin_pi(a: int, q: int) -> int {
    let k = a / q;
    let r = a % q;
    let r2 = if 2 * r > q {
        q - r
    } else {
        r
    };
    let s = sin_quarter(r2, q);
    if k % 2 == 1 {
        -s
    } else {
        s
    }
}

/// `sin(pi x) / (pi x)` at `x = a / q > 0`, in units of `TRIG_ONE`, rounded
/// toward zero.
pub open spec fn sinc(a: int, q: int) -> int {
    let s = sin_pi(a, q);
    let m = abs(s) * (TRIG_ONE as int) * q / (a * (PI_Q30 as int));
    if s < 0 {
        -m
    } else {
        m
    }
}

pub open spec fn abs(x: int) -> int {
    if x < 0 {
        -x
    } else {
        x
    }
}

/// The Lanczos kernel `sinc(x) * sinc(x / 3)` at `x = p / q`, in units of
/// `WEIGHT_ONE`, rounded toward zero: exactly `WEIGHT_ONE` at zero and zero
/// from `|x| >= 3` on.
pub open spec fn lanczos_weight(p: int, q: int) -> int {
    let a = abs(p);
    if a >= LANCZOS_RADIUS * q {
        0
    } else if a == 0 {
        WEIGHT_ONE as int
    } else {
        let s1 = sinc(a, q);
        let s2 = sinc(a, LANCZOS_RADIUS * q);
        let m = abs(s1) * abs(s2) / 1099511627776;
        if (s1 < 0) != (s2 < 0) {
            -m
        } else {
            m
        }
    }
}

fn horner(y2: u128, t: u128, k: u128) -> (r: u128)
    requires
        y2 <= 3 * TRIG_ONE,
        t <= TRIG_ONE,
        6 <= k <= 72,
    ensures
        r == horner_step(y2 as int, t as int, k as int),
        TRIG_ONE / 2 <= r <= TRIG_ONE,
{
    proof {
        lemma_product_bound(y2 as int, 3 * TRIG_ONE, t as int, TRIG_ONE as int);
        lemma_quotient_bound(y2 * t, 3 * TRIG_ONE * TRIG_ONE, k * TRIG_ONE);
        vstd::arithmetic::div_mod::lemma_div_is_ordered_by_denominator(
            3 * TRIG_ONE * TRIG_ONE,
            6 * TRIG_ONE,
            k * TRIG_ONE,
        );
        assert(3 * TRIG_ONE * TRIG_ONE / (6 * TRIG_ONE) == TRIG_ONE / 2);
    }
    TRIG_ONE - y2 * t / (k * TRIG_ONE)
}

/// Exec form of `sin_quarter`.
fn sin_quarter_exec(r: u128, q: u128) -> (s: u128)
    requires
        1 <= q <= MAX_KERNEL_DENOM,
        2 * r <= q,
    ensures
        s == sin_quarter(r as int, q as int),
        s <= (r as int) * (PI_Q30 as int) / (q as int),
{
    proof {
        lemma_product_bound(r as int, MAX_KERNEL_DENOM as int, PI_Q30 as int, PI_Q30 as int);
    }
    let y = r * PI_Q30 / q;
    proof {
        // 2 * y * q <= 2 * r * PI <= q * PI, so y <= PI / 2.
        assert(y * q <= r * PI_Q30) by (nonlinear_arith)
            requires
                y == (r as int) * (PI_Q30 as int) / (q as int),
                q >= 1,
        ;
        assert(2 * y <= PI_Q30) by (nonlinear_arith)
            requires
                y * q <= r * PI_Q30,
                2 * r <= q,
                q >= 1,
        ;
        lemma_product_bound(y as int, 1686629713, y as int, 1686629713);
        lemma_quotient_bound(y * y, (1686629713 * 1686629713) as int, TRIG_ONE as int);
    }
    let y2 = y * y / TRIG_ONE;
    let t4 = horner(y2, TRIG_ONE, 72);
    let t3 = horner(y2, t4, 42);
    let t2 = horner(y2, t3, 20);
    let t1 = horner(y2, t2, 6);
    proof {
        lemma_scale_down(y as int, t1 as int, TRIG_ONE as int);
        lemma_product_bound(y as int, 1686629713, t1 as int, TRIG_ONE as int);
    }
    y * t1 / TRIG_ONE
}

/// Exec form of `sin_pi`, returned as magnitude and sign (`true` when
/// negative).
fn sin_pi_exec(a: u128, q: u128) -> (r: (u128, bool))
    requires
        1 <= q <= MAX_KERNEL_DENOM,
        a < 3 * q,
    ensures
        (if r.1 {
            -(r.0 as int)
        } else {
            r.0 as int
        }) == sin_pi(a as int, q as int),
        r.0 * q <= a * PI_Q30,
        r.1 ==> r.0 > 0,
{
    let k = a / q;
    let rem = a % q;
    let r2 = if 2 * rem > q {
        q - rem
    } else {
        rem
    };
    let s = sin_quarter_exec(r2, q);
    proof {
        assert(r2 <= a) by {
            vstd::arithmetic::div_mod::lemma_mod_decreases(a as nat, q as nat);
        }
        assert(s * q <= r2 * PI_Q30) by (nonlinear_arith)
            requires
                s <= (r2 as int) * (PI_Q30 as int) / (q as int),
                q >= 1,
        ;
        assert(r2 * PI_Q30 <= a * PI_Q30) by (nonlinear_arith)
            requires
                r2 <= a,
        ;
    }
    (s, k % 2 == 1 && s != 0)
}

/// Exec form of `sinc`, returned as magnitude and sign (`true` when negative).
fn sinc_exec(a: u128, q: u128) -> (r: (u128, bool))
    requires
        1 <= q <= MAX_KERNEL_DENOM,
        1 <= a < 3 * q,
    ensures
        (if r.1 {
            -(r.0 as int)
        } else {
            r.0 as int
        }) == sinc(a as int, q as int),
        r.0 <= TRIG_ONE,
        r.1 ==> r.0 > 0,
{
    let (s, neg) = sin_pi_exec(a, q);
    proof {
        assert(s <= 3 * PI_Q30) by (nonlinear_arith)
            requires
                s * q <= a * PI_Q30,
                a < 3 * q,
                q >= 1,
        ;
        lemma_product_bound(s as int, 3 * PI_Q30, TRIG_ONE as int, TRIG_ONE as int);
        lemma_product_bound(
            s * TRIG_ONE,
            3 * PI_Q30 * TRIG_ONE,
            q as int,
            MAX_KERNEL_DENOM as int,
        );
        lemma_product_bound(a as int, 3 * MAX_KERNEL_DENOM, PI_Q30 as int, PI_Q30 as int);
        assert(s * TRIG_ONE * q <= TRIG_ONE * (a * PI_Q30)) by (nonlinear_arith)
            requires
                s * q <= a * PI_Q30,
        ;
        assert(a * PI_Q30 > 0) by (nonlinear_arith)
            requires
                a >= 1,
        ;
        lemma_quotient_bound(
            s * TRIG_ONE * q,
            TRIG_ONE * (a * PI_Q30),
            a * PI_Q30,
        );
        vstd::arithmetic::div_mod::lemma_div_multiples_vanish(
            TRIG_ONE as int,
            a * PI_Q30,
        );
    }
    let m = s * TRIG_ONE * q / (a * PI_Q30);
    (m, neg && m != 0)
}

/// The Lanczos kernel at the distance `p / q`: `WEIGHT_ONE * L(p / q)` with
/// `L(x) = sinc(x) * sinc(x / 3)` for `|x| < 3` and 0 beyond.
pub fn lanczos_kernel(p: i64, q: i64) -> (w: i64)
    requires
        1 <= q <= MAX_KERNEL_DENOM / 3,
    ensures
        w == lanczos_weight(p as int, q as int),
        -WEIGHT_ONE <= w <= WEIGHT_ONE,
{
    let a: u128 = if p < 0 {
        (-(p as i128)) as u128
    } else {
        p as u128
    };
    let qq = q as u128;
    if a >= 3 * qq {
        return 0;
    }
    if a == 0 {
        return WEIGHT_ONE;
    }
    let (s1, n1) = sinc_exec(a, qq);
    let (s2, n2) = sinc_exec(a, 3 * qq);
    proof {
        lemma_product_bound(s1 as int, TRIG_ONE as int, s2 as int, TRIG_ONE as int);
        lemma_quotient_bound(s1 * s2, TRIG_ONE * TRIG_ONE, 1099511627776);
    }
    let m = (s1 * s2 / 1099511627776) as i64;
    if n1 != n2 {
        -m
    } else {
        m
    }
}

} // verus!
