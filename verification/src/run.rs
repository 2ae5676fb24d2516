//! Running a simulation: dispatch by identifier, parameter resolution, the
//! engine call, and the result envelope.
//!
//! The payload of a result is an exact function of the request's parameter
//! bag: the envelope's generated identifier and timestamp are the only parts
//! of a response that two identical requests may differ in.

use vstd::prelude::*;
use crate::catalog::{SimulationError, double_slit_schema, str_eq};
use crate::engine::{
    MAX_SLIT_SEPARATION_FIX, NUM_POINTS, calculate_interference_pattern, sp_abs, sp_sample,
};
use crate::params::{RawValue, sp_entries, sp_lookup};

verus! {

/// A request to run a simulation: named raw parameter values. Unknown
/// names are ignored; missing or ill-typed values fall back to defaults.
pub struct RunSimulationRequest {
    pub parameters: Vec<(String, RawValue)>,
}

/// The outcome of one computation: a generated identifier, the simulation
/// identifier, the 200-sample intensity payload in micro-units, the
/// parameter values the engine actually used (resolved defaults included,
/// for caller transparency), and a creation timestamp.
pub struct SimulationResult {
    pub id: String,
    pub simulation_id: String,
    pub pattern: Vec<u64>,
    pub wavelength_fix: i64,
    pub slit_separation_fix: i64,
    pub observer_mode: bool,
    pub computed_at: String,
}

/// The wavelength value (micro-nanometres) a parameter bag resolves to,
/// before the engine's representability guard.
pub open spec fn sp_raw_wavelength(raw: Seq<(Seq<char>, RawValue)>) -> int {
    match sp_lookup(raw, "wavelength"@) {
        Some(RawValue::Num(v)) => v as int,
        _ => 550_000_000,
    }
}

/// The slit-separation value (micro-millimetres) a parameter bag resolves
/// to, before the engine's representability guard.
pub open spec fn sp_raw_slit_separation(raw: Seq<(Seq<char>, RawValue)>) -> int {
    match sp_lookup(raw, "slit_separation"@) {
        Some(RawValue::Num(v)) => v as int,
        _ => 100_000,
    }
}

/// The observer flag a parameter bag resolves to.
pub open spec fn sp_observer_mode(raw: Seq<(Seq<char>, RawValue)>) -> bool {
    match sp_lookup(raw, "observer_mode"@) {
        Some(RawValue::Bool(b)) => b,
        _ => false,
    }
}

/// The wavelength the engine uses: a value the integer engine cannot
/// take (zero or negative, where the phase quotient is undefined) is
/// treated as malformed and falls back to the default, like any other
/// unusable input.
pub open spec fn sp_used_wavelength(raw: Seq<(Seq<char>, RawValue)>) -> int {
    let v: int = sp_raw_wavelength(raw);
    if v < 1 {
        550_000_000
    } else {
        v
    }
}

/// The slit separation the engine uses: a magnitude beyond what the
/// integer phase product can carry is treated as malformed and falls back
/// to the default.
pub open spec fn sp_used_slit_separation(raw: Seq<(Seq<char>, RawValue)>) -> int {
    let v: int = sp_raw_slit_separation(raw);
    if v < -(MAX_SLIT_SEPARATION_FIX as int) || v > MAX_SLIT_SEPARATION_FIX as int {
        100_000
    } else {
        v
    }
}

/// Relies on `uuid::Uuid::new_v4` and its `Display` rendering: a fresh
/// random version-4 UUID as the 36-character hyphenated string. The value
/// is random; only its length is assumed.
#[verifier::external_body]
fn fresh_token() -> (r: String)
    ensures
        r@.len() == 36,
{
    uuid::Uuid::new_v4().to_string()
}

/// Relies on `chrono::Utc::now` and `DateTime::to_rfc3339` for the
/// creation timestamp. The value depends on the wall clock; nothing is
/// assumed of it.
#[verifier::external_body]
fn now_rfc3339() -> String {
    chrono::Utc::now().to_rfc3339()
}

/// Assemble a result envelope: a fresh identifier, the simulation
/// identifier, the payload, the parameter values it was computed from, and
/// a creation timestamp. Pure assembly, no failure mode.
pub fn package(
    simulation_id: &str,
    pattern: Vec<u64>,
    wavelength_fix: i64,
    slit_separation_fix: i64,
    observer_mode: bool,
) -> (r: SimulationResult)
    ensures
        r.simulation_id@ == simulation_id@,
        r.pattern == pattern,
        r.wavelength_fix == wavelength_fix,
        r.slit_separation_fix == slit_separation_fix,
        r.observer_mode == observer_mode,
        r.id@.len() == 36,
{
    SimulationResult {
        id: fresh_token(),
        simulation_id: simulation_id.to_owned(),
        pattern,
        wavelength_fix,
        slit_separation_fix,
        observer_mode,
        computed_at: now_rfc3339(),
    }
}

/// Run a simulation: resolve the request's parameters against the
/// simulation's schema, compute the payload, and package it. Fails with
/// [`SimulationError::NotFound`] exactly when `id` has no registered
/// compute function; every irregularity in the parameter bag itself is
/// absorbed by default substitution instead.
pub fn run_simulation(id: &str, request: &RunSimulationRequest) -> (r: Result<
    SimulationResult,
    SimulationError,
>)
    ensures
        r is Ok <==> id@ == "double-slit"@,
        r is Err ==> r == Err::<SimulationResult, SimulationError>(SimulationError::NotFound),
        r is Ok ==> {
            let res = r->Ok_0;
            let raw = sp_entries(request.parameters@);
            &&& res.simulation_id@ == id@
            &&& res.wavelength_fix == sp_used_wavelength(raw)
            &&& res.slit_separation_fix == sp_used_slit_separation(raw)
            &&& res.observer_mode == sp_observer_mode(raw)
            &&& res.pattern@.len() == NUM_POINTS
            &&& forall|i: int|
                0 <= i < NUM_POINTS ==> res.pattern@[i] == sp_sample(
                    sp_used_wavelength(raw),
                    sp_abs(sp_used_slit_separation(raw)),
                    sp_observer_mode(raw),
                    i,
                )
            &&& res.id@.len() == 36
        },
{
    if !str_eq(id, "double-slit") {
        return Err(SimulationError::NotFound);
    }
    let schema = double_slit_schema();
    let resolved = crate::params::resolve(&schema, &request.parameters);
    let wavelength_raw: i64 = match resolved[0].1 {
        RawValue::Num(v) => v,
        RawValue::Bool(_) => 550_000_000,
    };
    let slit_separation_raw: i64 = match resolved[1].1 {
        RawValue::Num(v) => v,
        RawValue::Bool(_) => 100_000,
    };
    let observer_mode: bool = match resolved[2].1 {
        RawValue::Bool(b) => b,
        RawValue::Num(_) => false,
    };
    let wavelength_fix: i64 = if wavelength_raw < 1 {
        550_000_000
    } else {
        wavelength_raw
    };
    let slit_separation_fix: i64 = if slit_separation_raw < -MAX_SLIT_SEPARATION_FIX
        || slit_separation_raw > MAX_SLIT_SEPARATION_FIX {
        100_000
    } else {
        slit_separation_raw
    };
    let pattern = calculate_interference_pattern(
        wavelength_fix,
        slit_separation_fix,
        observer_mode,
    );
    Ok(package(id, pattern, wavelength_fix, slit_separation_fix, observer_mode))
}

} // verus!
