use quantum_sims::{
    ParamKind, RawValue, RunSimulationRequest, SimulationError, run_simulation,
};
use quantum_sims::catalog::double_slit_schema;
use quantum_sims::params::resolve;

fn request(entries: Vec<(&str, RawValue)>) -> RunSimulationRequest {
    RunSimulationRequest {
        parameters: entries.into_iter().map(|(k, v)| (k.to_string(), v)).collect(),
    }
}

#[test]
fn unknown_id_run_is_not_found() {
    let r = run_simulation("unknown-id", &request(vec![]));
    assert!(matches!(r, Err(SimulationError::NotFound)));
}

#[test]
fn empty_parameters_resolve_to_defaults() {
    let res = run_simulation("double-slit", &request(vec![])).unwrap();
    assert_eq!(res.wavelength_fix, 550_000_000);
    assert_eq!(res.slit_separation_fix, 100_000);
    assert!(!res.observer_mode);
}

#[test]
fn empty_parameters_compute_the_same_payload_as_explicit_defaults() {
    let empty = run_simulation("double-slit", &request(vec![])).unwrap();
    let explicit = run_simulation(
        "double-slit",
        &request(vec![
            ("wavelength", RawValue::Num(550_000_000)),
            ("slit_separation", RawValue::Num(100_000)),
            ("observer_mode", RawValue::Bool(false)),
        ]),
    )
    .unwrap();
    assert_eq!(empty.pattern, explicit.pattern);
}

#[test]
fn identical_requests_yield_identical_payloads() {
    let params = vec![
        ("wavelength", RawValue::Num(620_000_000)),
        ("slit_separation", RawValue::Num(300_000)),
        ("observer_mode", RawValue::Bool(true)),
    ];
    let a = run_simulation("double-slit", &request(params.clone())).unwrap();
    let b = run_simulation("double-slit", &request(params)).unwrap();
    assert_eq!(a.pattern, b.pattern);
    assert_eq!(a.wavelength_fix, b.wavelength_fix);
}

#[test]
fn payload_has_200_finite_samples() {
    let res = run_simulation("double-slit", &request(vec![])).unwrap();
    assert_eq!(res.pattern.len(), 200);
    for &s in &res.pattern {
        assert!(s <= 1_000_000);
    }
}

#[test]
fn result_echoes_the_values_used() {
    let res = run_simulation(
        "double-slit",
        &request(vec![
            ("wavelength", RawValue::Num(480_000_000)),
            ("slit_separation", RawValue::Num(250_000)),
            ("observer_mode", RawValue::Bool(true)),
        ]),
    )
    .unwrap();
    assert_eq!(res.simulation_id, "double-slit");
    assert_eq!(res.wavelength_fix, 480_000_000);
    assert_eq!(res.slit_separation_fix, 250_000);
    assert!(res.observer_mode);
}

#[test]
fn ill_typed_values_fall_back_to_defaults() {
    let res = run_simulation(
        "double-slit",
        &request(vec![
            ("wavelength", RawValue::Bool(true)),
            ("observer_mode", RawValue::Num(7)),
        ]),
    )
    .unwrap();
    assert_eq!(res.wavelength_fix, 550_000_000);
    assert!(!res.observer_mode);
}

#[test]
fn unknown_keys_are_ignored() {
    let plain = run_simulation("double-slit", &request(vec![])).unwrap();
    let extra = run_simulation(
        "double-slit",
        &request(vec![("brightness", RawValue::Num(42))]),
    )
    .unwrap();
    assert_eq!(plain.pattern, extra.pattern);
    assert_eq!(extra.wavelength_fix, 550_000_000);
}

#[test]
fn unusable_numeric_values_fall_back_to_defaults() {
    let res = run_simulation(
        "double-slit",
        &request(vec![
            ("wavelength", RawValue::Num(0)),
            ("slit_separation", RawValue::Num(i64::MAX)),
        ]),
    )
    .unwrap();
    assert_eq!(res.wavelength_fix, 550_000_000);
    assert_eq!(res.slit_separation_fix, 100_000);
}

#[test]
fn envelope_carries_fresh_token_and_timestamp() {
    let a = run_simulation("double-slit", &request(vec![])).unwrap();
    let b = run_simulation("double-slit", &request(vec![])).unwrap();
    assert_eq!(a.id.len(), 36);
    assert_eq!(b.id.len(), 36);
    assert_ne!(a.id, b.id, "generated identifiers should be fresh");
    assert!(chrono::DateTime::parse_from_rfc3339(&a.computed_at).is_ok());
}

#[test]
fn resolver_takes_well_typed_values_and_defaults_the_rest() {
    let schema = double_slit_schema();
    let raw = vec![
        ("wavelength".to_string(), RawValue::Num(600_000_000)),
        ("slit_separation".to_string(), RawValue::Bool(false)),
    ];
    let resolved = resolve(&schema, &raw);
    assert_eq!(resolved.len(), 3);
    assert_eq!(resolved[0].0, "wavelength");
    assert_eq!(resolved[0].1, RawValue::Num(600_000_000));
    assert_eq!(resolved[1].1, RawValue::Num(100_000));
    assert_eq!(resolved[2].1, RawValue::Bool(false));
}

#[test]
fn schema_kinds_are_as_declared() {
    let schema = double_slit_schema();
    assert_eq!(schema[0].param_type, ParamKind::Slider);
    assert_eq!(schema[1].param_type, ParamKind::Slider);
    assert_eq!(schema[2].param_type, ParamKind::Toggle);
}
