//! The library's laws: properties that relate several functions, stated
//! over the specification model and proved once for all inputs.

use vstd::prelude::*;
use crate::catalog::{sp_catalog_ids, sp_supported};
use crate::engine::{NUM_POINTS, sp_pattern, sp_sample, sp_screen_x, lemma_sample_bounds};
use crate::fixed::SCALE;
use crate::params::RawValue;
use crate::run::{
    sp_observer_mode, sp_used_slit_separation, sp_used_wavelength,
};

verus! {

/// Every supported identifier appears in the catalog exactly once: the
/// listing's identifiers are pairwise distinct, and an identifier is
/// supported precisely when some listing position carries it.
pub proof fn lemma_each_id_listed_once()
    ensures
        forall|i: int, j: int|
            0 <= i < sp_catalog_ids().len() && 0 <= j < sp_catalog_ids().len() && i != j
                ==> sp_catalog_ids()[i] != sp_catalog_ids()[j],
        forall|id: Seq<char>|
            sp_supported(id) <==> exists|i: int|
                0 <= i < sp_catalog_ids().len() && sp_catalog_ids()[i] == id,
{
    reveal_strlit("double-slit");
    reveal_strlit("quantum-tunneling");
    reveal_strlit("hydrogen-atom");
    assert("double-slit"@.len() == 11);
    assert("quantum-tunneling"@.len() == 17);
    assert("hydrogen-atom"@.len() == 13);
}

/// Determinism: two results whose payloads were computed from the same
/// parameter bag carry the same payload, whatever their generated
/// identifiers and timestamps are.
pub proof fn lemma_run_deterministic(
    p1: Seq<u64>,
    p2: Seq<u64>,
    raw: Seq<(Seq<char>, RawValue)>,
)
    requires
        p1.len() == NUM_POINTS,
        p2.len() == NUM_POINTS,
        forall|i: int|
            0 <= i < NUM_POINTS ==> p1[i] == sp_sample(
                sp_used_wavelength(raw),
                crate::engine::sp_abs(sp_used_slit_separation(raw)),
                sp_observer_mode(raw),
                i,
            ),
        forall|i: int|
            0 <= i < NUM_POINTS ==> p2[i] == sp_sample(
                sp_used_wavelength(raw),
                crate::engine::sp_abs(sp_used_slit_separation(raw)),
                sp_observer_mode(raw),
                i,
            ),
    ensures
        p1 == p2,
{
    assert(p1 =~= p2);
}

/// Output length invariant: for every usable wavelength the profile has
/// exactly 200 samples, each within `[0, SCALE]` — in particular finite
/// and non-negative.
pub proof fn lemma_pattern_length_and_bounds(lam: int, d: int, observer_mode: bool)
    requires
        lam >= 1,
    ensures
        sp_pattern(lam, d, observer_mode).len() == NUM_POINTS,
        forall|i: int|
            0 <= i < NUM_POINTS ==> 0 <= #[trigger] sp_pattern(lam, d, observer_mode)[i]
                <= SCALE as int,
{
    assert forall|i: int| 0 <= i < NUM_POINTS implies 0 <= #[trigger] sp_pattern(
        lam,
        d,
        observer_mode,
    )[i] <= SCALE as int by {
        lemma_sample_bounds(lam, d, observer_mode, i);
    }
}

/// The parameter bag that names every double-slit default explicitly.
pub open spec fn sp_explicit_defaults() -> Seq<(Seq<char>, RawValue)> {
    seq![
        ("wavelength"@, RawValue::Num(550_000_000i64)),
        ("slit_separation"@, RawValue::Num(100_000i64)),
        ("observer_mode"@, RawValue::Bool(false)),
    ]
}

/// Default substitution: an empty parameter bag resolves to wavelength
/// 550.0 nm, slit separation 0.1 mm and observer mode off, and resolves to
/// exactly what a bag naming those values explicitly resolves to — so the
/// two runs compute identical payloads.
pub proof fn lemma_default_substitution()
    ensures
        sp_used_wavelength(Seq::empty()) == 550_000_000,
        sp_used_slit_separation(Seq::empty()) == 100_000,
        !sp_observer_mode(Seq::empty()),
        sp_used_wavelength(sp_explicit_defaults()) == sp_used_wavelength(Seq::empty()),
        sp_used_slit_separation(sp_explicit_defaults()) == sp_used_slit_separation(Seq::empty()),
        sp_observer_mode(sp_explicit_defaults()) == sp_observer_mode(Seq::empty()),
        sp_pattern(
            sp_used_wavelength(sp_explicit_defaults()),
            crate::engine::sp_abs(sp_used_slit_separation(sp_explicit_defaults())),
            sp_observer_mode(sp_explicit_defaults()),
        ) == sp_pattern(
            sp_used_wavelength(Seq::empty()),
            crate::engine::sp_abs(sp_used_slit_separation(Seq::empty())),
            sp_observer_mode(Seq::empty()),
        ),
{
    reveal_strlit("wavelength");
    reveal_strlit("slit_separation");
    reveal_strlit("observer_mode");
    assert("wavelength"@.len() == 10);
    assert("slit_separation"@.len() == 15);
    assert("observer_mode"@.len() == 13);
    let m = sp_explicit_defaults();
    reveal_with_fuel(crate::params::sp_lookup, 4);
    assert(crate::params::sp_lookup(m, "wavelength"@) == Some(RawValue::Num(550_000_000i64)));
    assert(m.drop_first() =~= seq![
        ("slit_separation"@, RawValue::Num(100_000i64)),
        ("observer_mode"@, RawValue::Bool(false)),
    ]);
    assert(crate::params::sp_lookup(m, "slit_separation"@) == Some(RawValue::Num(100_000i64)));
    assert(m.drop_first().drop_first() =~= seq![("observer_mode"@, RawValue::Bool(false))]);
    assert(crate::params::sp_lookup(m, "observer_mode"@) == Some(RawValue::Bool(false)));
}

/// Wave-vs-particle divergence at the screen's centre: in wave mode the
/// centre sample is the full unit (the phase there is zero, so the squared
/// cosine peaks), while in particle mode the centre lies between the two
/// bands and is strictly dimmer.
pub proof fn lemma_centre_divergence(lam: int, d: int)
    requires
        lam >= 1,
    ensures
        sp_sample(lam, d, false, 100) == SCALE as int,
        sp_sample(lam, d, true, 100) < sp_sample(lam, d, false, 100),
{
    assert(sp_screen_x(100) == 0);
    assert(crate::fixed::sp_atan(0) == 0);
    assert(crate::fixed::sp_sin(0) == 0);
    vstd::arithmetic::div_mod::lemma_div_of0(lam);
    assert((crate::fixed::PI_FIX as int * d) * 0 == 0);
    assert(0int % (crate::fixed::PI_FIX as int) == 0);
    assert(crate::fixed::sp_cos_half(0) == SCALE as int);
    assert(crate::fixed::sp_fmul(SCALE as int, SCALE as int) == SCALE as int);
    assert(crate::fixed::sp_cos_sq(0) == SCALE as int);
    assert(crate::engine::sp_particle_sample(100) == 82_084) by {
        assert(crate::fixed::sp_exp_neg_frac(500_000) == 606_532);
        reveal_with_fuel(crate::fixed::sp_inv_e_pow, 3);
        assert(crate::fixed::sp_fmul(606_532, crate::fixed::INV_E_FIX as int) == 223_130);
        assert(crate::fixed::sp_fmul(223_130, crate::fixed::INV_E_FIX as int) == 82_084);
        assert(crate::fixed::sp_exp_neg(2_500_000) == 82_084);
        assert((50_000int * 50_000int) / 1000 == 2_500_000);
    }
}

/// Symmetry: the intensity laws are even in the screen position, so the
/// samples at equal distances either side of the centre (index 100) are
/// exactly equal, in both modes.
pub proof fn lemma_mirror_symmetry(lam: int, d: int, observer_mode: bool, i: int, j: int)
    requires
        0 <= i < NUM_POINTS,
        0 <= j < NUM_POINTS,
        i + j == 200,
    ensures
        sp_sample(lam, d, observer_mode, i) == sp_sample(lam, d, observer_mode, j),
{
    assert(sp_screen_x(i) == sp_screen_x(j));
}

} // verus!
