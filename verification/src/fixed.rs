//! Fixed-point arithmetic for the simulation kernels.
//!
//! A real quantity `q` is represented by the integer `round(q * SCALE)`
//! (micro-units). The transcendental functions the kernels need (arctangent,
//! sine, cosine, decaying exponential) are truncated power series evaluated
//! in this representation; each executable function returns exactly the value
//! of its specification twin, so a kernel built on them is a pure function of
//! its integer inputs.

use vstd::prelude::*;
use vstd::arithmetic::div_mod::{
    lemma_div_is_ordered, lemma_div_pos_is_pos, lemma_div_multiples_vanish,
};
use vstd::arithmetic::mul::{lemma_mul_upper_bound, lemma_mul_nonnegative, lemma_mul_inequality};

verus! {

/// One unit (1.0) in micro-units.
pub const SCALE: u64 = 1_000_000;

/// The circle constant pi in micro-units.
pub const PI_FIX: u64 = 3_141_593;

/// Half of pi in micro-units.
pub const HALF_PI_FIX: u64 = 1_570_796;

/// The reciprocal of Euler's number, 1/e, in micro-units.
pub const INV_E_FIX: u64 = 367_879;

/// Product of two micro-unit values, rescaled back to micro-units.
pub open spec fn sp_fmul(a: int, b: int) -> int {
    (a * b) / (SCALE as int)
}

/// Bounds of a rescaled product, from bounds of the factors.
pub proof fn lemma_fmul_bound(a: int, amax: int, b: int, bmax: int)
    requires
        0 <= a <= amax,
        0 <= b <= bmax,
    ensures
        0 <= sp_fmul(a, b) <= (amax * bmax) / (SCALE as int),
{
    lemma_mul_nonnegative(a, b);
    lemma_mul_upper_bound(a, amax, b, bmax);
    lemma_div_pos_is_pos(a * b, SCALE as int);
    lemma_div_is_ordered(a * b, amax * bmax, SCALE as int);
}

/// A rescaled product by a factor of at most one unit shrinks: if
/// `a <= SCALE` then `(a * b) / SCALE <= b`.
pub proof fn lemma_fmul_shrink(a: int, b: int)
    requires
        0 <= a <= SCALE as int,
        0 <= b,
    ensures
        0 <= sp_fmul(a, b) <= b,
{
    lemma_mul_nonnegative(a, b);
    lemma_div_pos_is_pos(a * b, SCALE as int);
    lemma_mul_inequality(a, SCALE as int, b);
    lemma_div_is_ordered(a * b, (SCALE as int) * b, SCALE as int);
    lemma_div_multiples_vanish(b, SCALE as int);
}

/// Arctangent of `x` (micro-units, `0 <= x <= 1/10`), as the odd power
/// series truncated after the fifth power: `x - x^3/3 + x^5/5`.
pub open spec fn sp_atan(x: int) -> int {
    let x2: int = sp_fmul(x, x);
    let x3: int = sp_fmul(x2, x);
    let x4: int = sp_fmul(x3, x);
    let x5: int = sp_fmul(x4, x);
    x - x3 / 3 + x5 / 5
}

/// Arctangent in micro-units on `[0, 100_000]` (that is, on `[0, 0.1]`).
pub fn atan_fix(x: u64) -> (r: u64)
    requires
        x <= 100_000,
    ensures
        r == sp_atan(x as int),
        r <= 100_002,
{
    proof {
        lemma_fmul_bound(x as int, 100_000, x as int, 100_000);
    }
    let x2: u64 = (x * x) / SCALE;
    proof {
        lemma_fmul_bound(x2 as int, 10_000, x as int, 100_000);
        lemma_fmul_shrink(x2 as int, x as int);
    }
    let x3: u64 = (x2 * x) / SCALE;
    proof {
        lemma_fmul_bound(x3 as int, 1_000, x as int, 100_000);
    }
    let x4: u64 = (x3 * x) / SCALE;
    proof {
        lemma_fmul_bound(x4 as int, 100, x as int, 100_000);
    }
    let x5: u64 = (x4 * x) / SCALE;
    proof {
        lemma_div_is_ordered(x3 as int, 3 * (x as int), 3);
        lemma_div_multiples_vanish(x as int, 3);
    }
    x - x3 / 3 + x5 / 5
}

/// Sine of `t` (micro-units, small angle), as the series `t - t^3/6`.
pub open spec fn sp_sin(t: int) -> int {
    let t2: int = sp_fmul(t, t);
    let t3: int = sp_fmul(t2, t);
    t - t3 / 6
}

/// Sine in micro-units on `[0, 100_002]` (small angles only).
pub fn sin_fix(t: u64) -> (r: u64)
    requires
        t <= 100_002,
    ensures
        r == sp_sin(t as int),
        r <= 100_002,
{
    proof {
        lemma_fmul_bound(t as int, 100_002, t as int, 100_002);
    }
    let t2: u64 = (t * t) / SCALE;
    proof {
        lemma_fmul_bound(t2 as int, 10_000, t as int, 100_002);
        lemma_fmul_shrink(t2 as int, t as int);
    }
    let t3: u64 = (t2 * t) / SCALE;
    proof {
        lemma_div_is_ordered(t3 as int, 6 * (t as int), 6);
        lemma_div_multiples_vanish(t as int, 6);
    }
    t - t3 / 6
}

/// Cosine of `m` (micro-units, `0 <= m <= pi/2 + 1`), as the even power
/// series truncated after the eighth power, clamped into `[0, SCALE]`.
pub open spec fn sp_cos_half(m: int) -> int {
    let t2: int = sp_fmul(m, m);
    let t4: int = sp_fmul(t2, t2);
    let t6: int = sp_fmul(t4, t2);
    let t8: int = sp_fmul(t6, t2);
    let pos: int = SCALE as int + t4 / 24 + t8 / 40320;
    let neg: int = t2 / 2 + t6 / 720;
    if pos >= neg {
        if pos - neg <= SCALE as int {
            pos - neg
        } else {
            SCALE as int
        }
    } else {
        0
    }
}

/// Cosine in micro-units on `[0, 1_570_797]` (first quadrant).
pub fn cos_half_fix(m: u64) -> (r: u64)
    requires
        m <= 1_570_797,
    ensures
        r == sp_cos_half(m as int),
        r <= SCALE,
{
    proof {
        lemma_fmul_bound(m as int, 1_600_000, m as int, 1_600_000);
    }
    let t2: u64 = (m * m) / SCALE;
    proof {
        lemma_fmul_bound(t2 as int, 2_560_000, t2 as int, 2_560_000);
    }
    let t4: u64 = (t2 * t2) / SCALE;
    proof {
        lemma_fmul_bound(t4 as int, 6_553_600, t2 as int, 2_560_000);
    }
    let t6: u64 = (t4 * t2) / SCALE;
    proof {
        lemma_fmul_bound(t6 as int, 16_777_216, t2 as int, 2_560_000);
    }
    let t8: u64 = (t6 * t2) / SCALE;
    let pos: u64 = SCALE + t4 / 24 + t8 / 40320;
    let neg: u64 = t2 / 2 + t6 / 720;
    if pos >= neg {
        if pos - neg <= SCALE {
            pos - neg
        } else {
            SCALE
        }
    } else {
        0
    }
}

/// Squared cosine of a non-negative angle `p` in micro-units. The square
/// has period pi and is symmetric inside each period, so `p` is reduced
/// modulo pi and folded into the first quadrant before the series runs.
pub open spec fn sp_cos_sq(p: int) -> int {
    let r0: int = p % (PI_FIX as int);
    let m: int = if r0 > HALF_PI_FIX as int {
        PI_FIX as int - r0
    } else {
        r0
    };
    let c: int = sp_cos_half(m);
    sp_fmul(c, c)
}

/// `sp_cos_sq` stays within one unit, whatever the angle.
pub proof fn lemma_cos_sq_bound(p: int)
    ensures
        0 <= sp_cos_sq(p) <= SCALE as int,
{
    let r0: int = p % (PI_FIX as int);
    let m: int = if r0 > HALF_PI_FIX as int {
        PI_FIX as int - r0
    } else {
        r0
    };
    let c: int = sp_cos_half(m);
    assert(0 <= c <= SCALE as int);
    lemma_fmul_bound(c, SCALE as int, c, SCALE as int);
}

/// Squared cosine in micro-units of any non-negative angle.
pub fn cos_sq_fix(p: u64) -> (r: u64)
    ensures
        r == sp_cos_sq(p as int),
        r <= SCALE,
{
    let r0: u64 = p % PI_FIX;
    let m: u64 = if r0 > HALF_PI_FIX {
        PI_FIX - r0
    } else {
        r0
    };
    let c: u64 = cos_half_fix(m);
    proof {
        lemma_fmul_bound(c as int, SCALE as int, c as int, SCALE as int);
    }
    (c * c) / SCALE
}

/// `exp(-f)` for a fractional `f` (micro-units, `0 <= f < 1`), as the
/// alternating series truncated after the sixth power, clamped into
/// `[0, SCALE]`.
pub open spec fn sp_exp_neg_frac(f: int) -> int {
    let t2: int = sp_fmul(f, f);
    let t3: int = sp_fmul(t2, f);
    let t4: int = sp_fmul(t3, f);
    let t5: int = sp_fmul(t4, f);
    let t6: int = sp_fmul(t5, f);
    let pos: int = SCALE as int + t2 / 2 + t4 / 24 + t6 / 720;
    let neg: int = f + t3 / 6 + t5 / 120;
    if pos >= neg {
        if pos - neg <= SCALE as int {
            pos - neg
        } else {
            SCALE as int
        }
    } else {
        0
    }
}

/// `exp(-f)` in micro-units for `0 <= f < SCALE`.
pub fn exp_neg_frac_fix(f: u64) -> (r: u64)
    requires
        f < SCALE,
    ensures
        r == sp_exp_neg_frac(f as int),
        r <= SCALE,
{
    proof {
        lemma_fmul_bound(f as int, 1_000_000, f as int, 1_000_000);
    }
    let t2: u64 = (f * f) / SCALE;
    proof {
        lemma_fmul_bound(t2 as int, 1_000_000, f as int, 1_000_000);
    }
    let t3: u64 = (t2 * f) / SCALE;
    proof {
        lemma_fmul_bound(t3 as int, 1_000_000, f as int, 1_000_000);
    }
    let t4: u64 = (t3 * f) / SCALE;
    proof {
        lemma_fmul_bound(t4 as int, 1_000_000, f as int, 1_000_000);
    }
    let t5: u64 = (t4 * f) / SCALE;
    proof {
        lemma_fmul_bound(t5 as int, 1_000_000, f as int, 1_000_000);
    }
    let t6: u64 = (t5 * f) / SCALE;
    let pos: u64 = SCALE + t2 / 2 + t4 / 24 + t6 / 720;
    let neg: u64 = f + t3 / 6 + t5 / 120;
    if pos >= neg {
        if pos - neg <= SCALE {
            pos - neg
        } else {
            SCALE
        }
    } else {
        0
    }
}

/// `v` scaled down by `k` factors of `1/e`, each applied in micro-units.
pub open spec fn sp_inv_e_pow(v: int, k: nat) -> int
    decreases k,
{
    if k == 0 {
        v
    } else {
        sp_fmul(sp_inv_e_pow(v, (k - 1) as nat), INV_E_FIX as int)
    }
}

/// Scaling by factors below one unit keeps a value within `[0, v]`.
pub proof fn lemma_inv_e_pow_bound(v: int, k: nat)
    requires
        0 <= v <= SCALE as int,
    ensures
        0 <= sp_inv_e_pow(v, k) <= v,
    decreases k,
{
    if k > 0 {
        lemma_inv_e_pow_bound(v, (k - 1) as nat);
        lemma_fmul_shrink(INV_E_FIX as int, sp_inv_e_pow(v, (k - 1) as nat));
        vstd::arithmetic::mul::lemma_mul_is_commutative(
            sp_inv_e_pow(v, (k - 1) as nat),
            INV_E_FIX as int,
        );
    }
}

/// `exp(-u)` for a non-negative `u` in micro-units: the fractional part
/// goes through the series, then one factor of `1/e` per whole unit.
pub open spec fn sp_exp_neg(u: int) -> int {
    sp_inv_e_pow(sp_exp_neg_frac(u % (SCALE as int)), (u / (SCALE as int)) as nat)
}

/// `exp(-u)` in micro-units for `0 <= u <= 30` units.
pub fn exp_neg_fix(u: u64) -> (r: u64)
    requires
        u <= 30_000_000,
    ensures
        r == sp_exp_neg(u as int),
        r <= SCALE,
{
    let k: u64 = u / SCALE;
    let f: u64 = u % SCALE;
    let mut r: u64 = exp_neg_frac_fix(f);
    let ghost v0: int = r as int;
    let mut j: u64 = 0;
    while j < k
        invariant
            j <= k,
            k <= 30,
            0 <= v0 <= SCALE as int,
            r as int == sp_inv_e_pow(v0, j as nat),
            r <= SCALE,
        decreases k - j,
    {
        proof {
            lemma_fmul_bound(r as int, SCALE as int, INV_E_FIX as int, INV_E_FIX as int);
            lemma_fmul_shrink(INV_E_FIX as int, r as int);
            vstd::arithmetic::mul::lemma_mul_is_commutative(r as int, INV_E_FIX as int);
        }
        r = (r * INV_E_FIX) / SCALE;
        j = j + 1;
    }
    r
}

} // verus!
