use quantum_sims::{SCALE, calculate_interference_pattern};

const DEFAULT_WAVELENGTH: i64 = 550_000_000;
const DEFAULT_SEPARATION: i64 = 100_000;

#[test]
fn pattern_has_200_samples_within_one_unit() {
    for observer in [false, true] {
        let p = calculate_interference_pattern(DEFAULT_WAVELENGTH, DEFAULT_SEPARATION, observer);
        assert_eq!(p.len(), 200);
        for &s in &p {
            assert!(s <= SCALE);
        }
    }
}

#[test]
fn wave_mode_peaks_at_the_centre() {
    let p = calculate_interference_pattern(DEFAULT_WAVELENGTH, DEFAULT_SEPARATION, false);
    assert_eq!(p[100], SCALE);
}

#[test]
fn particle_mode_centre_value_is_exact() {
    // exp(-2.5) of both lobes, averaged, in micro-units
    let p = calculate_interference_pattern(DEFAULT_WAVELENGTH, DEFAULT_SEPARATION, true);
    assert_eq!(p[100], 82_084);
}

#[test]
fn particle_mode_dips_at_the_centre() {
    // sample 150 sits near the +0.05 rad lobe; the centre is far dimmer
    let p = calculate_interference_pattern(DEFAULT_WAVELENGTH, DEFAULT_SEPARATION, true);
    assert!(p[100] < p[150]);
}

#[test]
fn wave_and_particle_modes_diverge_at_the_centre() {
    let wave = calculate_interference_pattern(DEFAULT_WAVELENGTH, DEFAULT_SEPARATION, false);
    let particle = calculate_interference_pattern(DEFAULT_WAVELENGTH, DEFAULT_SEPARATION, true);
    assert_ne!(wave[100], particle[100]);
    assert!(particle[100] < wave[100]);
}

#[test]
fn pattern_is_mirror_symmetric_about_the_centre() {
    for observer in [false, true] {
        let p = calculate_interference_pattern(DEFAULT_WAVELENGTH, DEFAULT_SEPARATION, observer);
        for i in 1..200usize {
            assert_eq!(p[i], p[200 - i], "samples {} and {} differ", i, 200 - i);
        }
    }
}

#[test]
fn identical_inputs_give_identical_patterns() {
    let a = calculate_interference_pattern(600_000_000, 250_000, false);
    let b = calculate_interference_pattern(600_000_000, 250_000, false);
    assert_eq!(a, b);
}

#[test]
fn separation_sign_does_not_matter() {
    let pos = calculate_interference_pattern(DEFAULT_WAVELENGTH, 250_000, false);
    let neg = calculate_interference_pattern(DEFAULT_WAVELENGTH, -250_000, false);
    assert_eq!(pos, neg);
}

#[test]
fn wave_pattern_responds_to_the_parameters() {
    let violet = calculate_interference_pattern(400_000_000, DEFAULT_SEPARATION, false);
    let green = calculate_interference_pattern(DEFAULT_WAVELENGTH, DEFAULT_SEPARATION, false);
    assert_ne!(violet, green);
    let narrow = calculate_interference_pattern(DEFAULT_WAVELENGTH, 50_000, false);
    let wide = calculate_interference_pattern(DEFAULT_WAVELENGTH, 1_000_000, false);
    assert_ne!(narrow, wide);
}
