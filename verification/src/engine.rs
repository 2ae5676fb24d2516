//! The interference computation engine: the double-slit kernel.
//!
//! Given a wavelength (nanometres), a slit separation (millimetres) and an
//! observer flag, the kernel produces 200 intensity samples across a 1-metre
//! screen, one per millimetre of screen position from -0.1 m to +0.099 m.
//! Every quantity is carried in micro-units (see [`crate::fixed`]), so the
//! whole computation is an exact function of its integer inputs.

use vstd::prelude::*;
use crate::fixed::{
    SCALE, PI_FIX, sp_atan, sp_sin, sp_cos_sq, sp_exp_neg,
    atan_fix, sin_fix, cos_sq_fix, exp_neg_fix,
    lemma_cos_sq_bound, lemma_inv_e_pow_bound,
};
use vstd::arithmetic::mul::lemma_mul_upper_bound;

verus! {

/// Smallest wavelength (micro-nanometres) the integer engine accepts: the
/// wavelength divides the phase, so it must be positive.
pub const MIN_WAVELENGTH_FIX: i64 = 1;

/// Largest slit-separation magnitude (micro-millimetres) the integer engine
/// accepts without overflowing the phase product: 10 mm.
pub const MAX_SLIT_SEPARATION_FIX: i64 = 10_000_000;

/// Number of samples across the screen.
pub const NUM_POINTS: usize = 200;

/// Magnitude of an integer.
pub open spec fn sp_abs(v: int) -> int {
    if v < 0 {
        -v
    } else {
        v
    }
}

/// Distance (micro-metres) of sample `i` from the screen's centre: sample
/// positions are `(i - 100) / 1000` metres, and every intensity below is an
/// even function of position, so only the magnitude matters.
pub open spec fn sp_screen_x(i: int) -> int {
    if i < 100 {
        (100 - i) * 1000
    } else {
        (i - 100) * 1000
    }
}

/// Angle (micro-radians) from the slits to sample `i`, for a screen one
/// metre away: `atan(x / 1.0)`.
pub open spec fn sp_theta(i: int) -> int {
    sp_atan(sp_screen_x(i))
}

/// Wave-mode intensity at sample `i`: the two-slit interference law
/// `cos^2(pi * d * sin(theta) / lambda)`, with `lam` the wavelength in
/// micro-nanometres and `d` the slit-separation magnitude in
/// micro-millimetres (the metre conversions of the two cancel into the
/// single factor carried by the micro-unit representation).
pub open spec fn sp_wave_sample(lam: int, d: int, i: int) -> int {
    sp_cos_sq((PI_FIX as int * d) * sp_sin(sp_theta(i)) / lam)
}

/// Particle-mode intensity at sample `i`: the average of two Gaussian
/// lobes centred at angles of +0.05 and -0.05 radians, each
/// `exp(-(theta -+ 0.05)^2 / 0.001)`. It depends on no parameter.
pub open spec fn sp_particle_sample(i: int) -> int {
    let th: int = sp_theta(i);
    let a: int = th + 50_000;
    let b: int = if th >= 50_000 {
        th - 50_000
    } else {
        50_000 - th
    };
    (sp_exp_neg((a * a) / 1000) + sp_exp_neg((b * b) / 1000)) / 2
}

/// Intensity at sample `i`: observing collapses the interference into the
/// two particle bands.
pub open spec fn sp_sample(lam: int, d: int, observer_mode: bool, i: int) -> int {
    if observer_mode {
        sp_particle_sample(i)
    } else {
        sp_wave_sample(lam, d, i)
    }
}

/// The full 200-sample intensity profile.
pub open spec fn sp_pattern(lam: int, d: int, observer_mode: bool) -> Seq<int> {
    Seq::new(NUM_POINTS as nat, |i: int| sp_sample(lam, d, observer_mode, i))
}

/// Every sample lies in `[0, SCALE]`: wave intensities are a squared
/// cosine, particle intensities an average of two decayed exponentials.
pub proof fn lemma_sample_bounds(lam: int, d: int, observer_mode: bool, i: int)
    requires
        lam >= 1,
    ensures
        0 <= sp_sample(lam, d, observer_mode, i) <= SCALE as int,
{
    if observer_mode {
        let th: int = sp_theta(i);
        let a: int = th + 50_000;
        let b: int = if th >= 50_000 {
            th - 50_000
        } else {
            50_000 - th
        };
        lemma_exp_neg_bound((a * a) / 1000);
        lemma_exp_neg_bound((b * b) / 1000);
    } else {
        lemma_cos_sq_bound((PI_FIX as int * d) * sp_sin(sp_theta(i)) / lam);
    }
}

/// `sp_exp_neg` stays within one unit: the fractional series clamps into
/// `[0, SCALE]` and each further factor of `1/e` only shrinks the value.
pub proof fn lemma_exp_neg_bound(u: int)
    ensures
        0 <= sp_exp_neg(u) <= SCALE as int,
{
    let f: int = u % (SCALE as int);
    let v: int = crate::fixed::sp_exp_neg_frac(f);
    assert(0 <= v <= SCALE as int);
    lemma_inv_e_pow_bound(v, (u / (SCALE as int)) as nat);
}

/// Compute the double-slit interference pattern.
///
/// `wavelength_fix` is the wavelength in micro-nanometres,
/// `slit_separation_fix` the slit separation in micro-millimetres, and
/// `observer_mode` selects the particle-band behaviour. The result is the
/// 200-sample intensity profile in micro-units, each sample in
/// `[0, SCALE]`; only the separation's magnitude enters the physics, as the
/// intensity laws are even in it.
pub fn calculate_interference_pattern(
    wavelength_fix: i64,
    slit_separation_fix: i64,
    observer_mode: bool,
) -> (r: Vec<u64>)
    requires
        wavelength_fix >= MIN_WAVELENGTH_FIX,
        sp_abs(slit_separation_fix as int) <= MAX_SLIT_SEPARATION_FIX as int,
    ensures
        r@.len() == NUM_POINTS,
        forall|i: int|
            0 <= i < NUM_POINTS ==> r@[i] == sp_sample(
                wavelength_fix as int,
                sp_abs(slit_separation_fix as int),
                observer_mode,
                i,
            ),
        forall|i: int| 0 <= i < NUM_POINTS ==> r@[i] <= SCALE,
{
    let lam: u64 = wavelength_fix as u64;
    let d_abs: u64 = if slit_separation_fix < 0 {
        (-slit_separation_fix) as u64
    } else {
        slit_separation_fix as u64
    };
    let mut out: Vec<u64> = Vec::new();
    let mut i: usize = 0;
    while i < NUM_POINTS
        invariant
            i <= NUM_POINTS,
            out@.len() == i,
            lam == wavelength_fix as int,
            lam >= 1,
            d_abs == sp_abs(slit_separation_fix as int),
            d_abs <= MAX_SLIT_SEPARATION_FIX,
            forall|j: int|
                0 <= j < i ==> out@[j] == sp_sample(
                    wavelength_fix as int,
                    sp_abs(slit_separation_fix as int),
                    observer_mode,
                    j,
                ),
            forall|j: int| 0 <= j < i ==> out@[j] <= SCALE,
        decreases NUM_POINTS - i,
    {
        let x: u64 = if i < 100 {
            ((100 - i) as u64) * 1000
        } else {
            ((i - 100) as u64) * 1000
        };
        assert(x == sp_screen_x(i as int));
        assert(x <= 100_000);
        let th: u64 = atan_fix(x);
        let sample: u64 = if observer_mode {
            let a: u64 = th + 50_000;
            let b: u64 = if th >= 50_000 {
                th - 50_000
            } else {
                50_000 - th
            };
            proof {
                lemma_mul_upper_bound(a as int, 150_002, a as int, 150_002);
                lemma_mul_upper_bound(b as int, 50_002, b as int, 50_002);
            }
            let ua: u64 = (a * a) / 1000;
            let ub: u64 = (b * b) / 1000;
            let ea: u64 = exp_neg_fix(ua);
            let eb: u64 = exp_neg_fix(ub);
            (ea + eb) / 2
        } else {
            let s: u64 = sin_fix(th);
            proof {
                lemma_mul_upper_bound(PI_FIX as int, PI_FIX as int, d_abs as int, 10_000_000);
                lemma_mul_upper_bound(
                    (PI_FIX as int) * (d_abs as int),
                    31_415_930_000_000,
                    s as int,
                    100_002,
                );
            }
            let phase: u64 = (PI_FIX * d_abs) * s / lam;
            cos_sq_fix(phase)
        };
        assert(sample == sp_sample(
            wavelength_fix as int,
            sp_abs(slit_separation_fix as int),
            observer_mode,
            i as int,
        ));
        assert(sample <= SCALE) by {
            lemma_sample_bounds(
                wavelength_fix as int,
                sp_abs(slit_separation_fix as int),
                observer_mode,
                i as int,
            );
        }
        out.push(sample);
        i = i + 1;
    }
    out
}

} // verus!
