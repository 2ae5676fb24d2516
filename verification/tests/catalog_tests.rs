use quantum_sims::{SimulationError, get_simulation, list_simulations};

#[test]
fn list_has_three_simulations_in_order() {
    let sims = list_simulations();
    assert_eq!(sims.len(), 3);
    assert_eq!(sims[0].id, "double-slit");
    assert_eq!(sims[1].id, "quantum-tunneling");
    assert_eq!(sims[2].id, "hydrogen-atom");
}

#[test]
fn each_supported_id_listed_exactly_once() {
    let sims = list_simulations();
    for id in ["double-slit", "quantum-tunneling", "hydrogen-atom"] {
        let count = sims.iter().filter(|s| s.id == id).count();
        assert_eq!(count, 1, "{} should be listed exactly once", id);
    }
}

#[test]
fn listing_metadata_is_fixed() {
    let sims = list_simulations();
    assert_eq!(sims[0].name, "Double-Slit Experiment");
    assert_eq!(
        sims[0].description,
        "Explore wave-particle duality through the classic quantum experiment"
    );
    assert_eq!(sims[0].difficulty, "beginner");
    assert_eq!(sims[0].estimated_time_minutes, 15);
    assert_eq!(
        sims[0].topics,
        vec!["wave-particle duality", "interference", "quantum measurement"]
    );
    assert_eq!(sims[1].name, "Quantum Tunneling");
    assert_eq!(sims[1].difficulty, "intermediate");
    assert_eq!(sims[1].estimated_time_minutes, 20);
    assert_eq!(sims[2].name, "Hydrogen Atom Orbitals");
    assert_eq!(sims[2].estimated_time_minutes, 25);
    assert_eq!(
        sims[2].topics,
        vec!["orbitals", "energy levels", "spectral lines"]
    );
}

#[test]
fn unknown_id_details_are_not_found() {
    let r = get_simulation("unknown-id");
    assert!(matches!(r, Err(SimulationError::NotFound)));
}

#[test]
fn listed_but_unregistered_id_details_are_not_found() {
    let r = get_simulation("quantum-tunneling");
    assert!(matches!(r, Err(SimulationError::NotFound)));
}

#[test]
fn double_slit_details_carry_schema_and_theory() {
    let d = get_simulation("double-slit").unwrap();
    assert_eq!(d.id, "double-slit");
    assert_eq!(d.name, "Double-Slit Experiment");
    assert_eq!(d.parameters.len(), 3);
    assert_eq!(d.parameters[0].name, "wavelength");
    assert_eq!(d.parameters[0].label, "Wavelength (nm)");
    assert_eq!(d.parameters[0].min, Some(400_000_000));
    assert_eq!(d.parameters[0].max, Some(700_000_000));
    assert_eq!(d.parameters[0].default, 550_000_000);
    assert_eq!(d.parameters[0].step, Some(10_000_000));
    assert_eq!(d.parameters[1].name, "slit_separation");
    assert_eq!(d.parameters[1].min, Some(10_000));
    assert_eq!(d.parameters[1].max, Some(1_000_000));
    assert_eq!(d.parameters[1].default, 100_000);
    assert_eq!(d.parameters[2].name, "observer_mode");
    assert_eq!(d.parameters[2].default, 0);
    assert!(d.theory.contains("Wave-Particle Duality"));
    assert!(d.theory.contains("\\lambda"));
}

#[test]
fn schema_defaults_lie_within_declared_bounds() {
    let d = get_simulation("double-slit").unwrap();
    for p in &d.parameters {
        if let (Some(min), Some(max)) = (p.min, p.max) {
            assert!(min <= p.default && p.default <= max, "{}", p.name);
        }
    }
}
