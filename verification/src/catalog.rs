//! The simulation registry: the fixed catalog, per-simulation details and
//! parameter schemas.
//!
//! The catalog is static data in a fixed insertion order. Listing it never
//! fails; asking for the details of an identifier that has no registered
//! compute function is the one error of the library, [`SimulationError::NotFound`].

use vstd::prelude::*;
use crate::params::{ParamKind, SimulationParameter};

verus! {

/// The single error of the library: the simulation identifier is unknown.
#[derive(Clone, Copy, Debug, PartialEq, Eq, Structural)]
pub enum SimulationError {
    NotFound,
}

/// A catalog entry, as the listing returns it.
pub struct SimulationInfo {
    pub id: String,
    pub name: String,
    pub description: String,
    pub difficulty: String,
    pub estimated_time_minutes: u32,
    pub topics: Vec<String>,
}

/// The details of one simulation: its parameter schema and theory text.
pub struct SimulationDetails {
    pub id: String,
    pub name: String,
    pub description: String,
    pub parameters: Vec<SimulationParameter>,
    pub theory: String,
}

/// The identifiers of the catalog, in listing order.
pub open spec fn sp_catalog_ids() -> Seq<Seq<char>> {
    seq!["double-slit"@, "quantum-tunneling"@, "hydrogen-atom"@]
}

/// Whether an identifier is in the catalog.
pub open spec fn sp_supported(id: Seq<char>) -> bool {
    sp_catalog_ids().contains(id)
}

/// The theory text shown with the double-slit simulation.
pub open spec fn sp_double_slit_theory() -> Seq<char> {
    "## Wave-Particle Duality\n\nWhen particles like electrons or photons pass through two slits, they create an interference pattern on a detection screen - a behavior characteristic of waves.\n\nHowever, when we try to observe which slit the particle passes through, the interference pattern disappears, and we see two bands - particle behavior.\n\n### Key Concepts:\n1. **Superposition**: The particle exists in a superposition of passing through both slits\n2. **Wave function**: Describes the probability amplitude of the particle's position\n3. **Measurement**: Observing the particle collapses the wave function\n\n### Mathematical Description:\nThe intensity pattern is given by:\n$$I(\\theta) = I_0 \\cos^2\\left(\\frac{\\pi d \\sin(\\theta)}{\\lambda}\\right)$$\n\nWhere:\n- $d$ is the slit separation\n- $\\lambda$ is the wavelength\n- $\\theta$ is the angle from the center\n"@
}

/// Whether two string slices hold the same characters.
pub fn str_eq(a: &str, b: &str) -> (r: bool)
    ensures
        r == (a@ == b@),
{
    let owned_a: String = a.to_owned();
    let owned_b: String = b.to_owned();
    owned_a == owned_b
}

/// Three topic labels as an owned list.
fn three_topics(a: &str, b: &str, c: &str) -> (r: Vec<String>)
    ensures
        r@.len() == 3,
        r@[0]@ == a@,
        r@[1]@ == b@,
        r@[2]@ == c@,
{
    let mut v: Vec<String> = Vec::new();
    v.push(a.to_owned());
    v.push(b.to_owned());
    v.push(c.to_owned());
    v
}

/// List the catalog: a fixed, insertion-ordered set of three simulations.
/// This never fails, and its contents do not depend on anything.
pub fn list_simulations() -> (r: Vec<SimulationInfo>)
    ensures
        r@.len() == sp_catalog_ids().len(),
        forall|i: int| 0 <= i < r@.len() ==> r@[i].id@ == sp_catalog_ids()[i],
        r@[0].name@ == "Double-Slit Experiment"@,
        r@[0].description@ == "Explore wave-particle duality through the classic quantum experiment"@,
        r@[0].difficulty@ == "beginner"@,
        r@[0].estimated_time_minutes == 15,
        r@[0].topics@.len() == 3,
        r@[0].topics@[0]@ == "wave-particle duality"@,
        r@[0].topics@[1]@ == "interference"@,
        r@[0].topics@[2]@ == "quantum measurement"@,
        r@[1].name@ == "Quantum Tunneling"@,
        r@[1].description@ == "Visualize how particles can pass through potential barriers"@,
        r@[1].difficulty@ == "intermediate"@,
        r@[1].estimated_time_minutes == 20,
        r@[1].topics@.len() == 3,
        r@[1].topics@[0]@ == "tunneling"@,
        r@[1].topics@[1]@ == "potential barriers"@,
        r@[1].topics@[2]@ == "probability"@,
        r@[2].name@ == "Hydrogen Atom Orbitals"@,
        r@[2].description@ == "Interactive 3D visualization of electron orbitals"@,
        r@[2].difficulty@ == "intermediate"@,
        r@[2].estimated_time_minutes == 25,
        r@[2].topics@.len() == 3,
        r@[2].topics@[0]@ == "orbitals"@,
        r@[2].topics@[1]@ == "energy levels"@,
        r@[2].topics@[2]@ == "spectral lines"@,
{
    let mut r: Vec<SimulationInfo> = Vec::new();
    r.push(
        SimulationInfo {
            id: "double-slit".to_owned(),
            name: "Double-Slit Experiment".to_owned(),
            description: "Explore wave-particle duality through the classic quantum experiment".to_owned(),
            difficulty: "beginner".to_owned(),
            estimated_time_minutes: 15,
            topics: three_topics("wave-particle duality", "interference", "quantum measurement"),
        },
    );
    r.push(
        SimulationInfo {
            id: "quantum-tunneling".to_owned(),
            name: "Quantum Tunneling".to_owned(),
            description: "Visualize how particles can pass through potential barriers".to_owned(),
            difficulty: "intermediate".to_owned(),
            estimated_time_minutes: 20,
            topics: three_topics("tunneling", "potential barriers", "probability"),
        },
    );
    r.push(
        SimulationInfo {
            id: "hydrogen-atom".to_owned(),
            name: "Hydrogen Atom Orbitals".to_owned(),
            description: "Interactive 3D visualization of electron orbitals".to_owned(),
            difficulty: "intermediate".to_owned(),
            estimated_time_minutes: 25,
            topics: three_topics("orbitals", "energy levels", "spectral lines"),
        },
    );
    r
}

/// The double-slit parameter schema: what the engine consumes, with the
/// display metadata a user interface renders. Numeric values are in
/// micro-units of the display unit (nanometres, millimetres).
pub fn double_slit_schema() -> (r: Vec<SimulationParameter>)
    ensures
        r@.len() == 3,
        r@[0].name@ == "wavelength"@,
        r@[0].label@ == "Wavelength (nm)"@,
        r@[0].param_type == ParamKind::Slider,
        r@[0].min == Some(400_000_000i64),
        r@[0].max == Some(700_000_000i64),
        r@[0].default == 550_000_000i64,
        r@[0].step == Some(10_000_000i64),
        r@[1].name@ == "slit_separation"@,
        r@[1].label@ == "Slit Separation (mm)"@,
        r@[1].param_type == ParamKind::Slider,
        r@[1].min == Some(10_000i64),
        r@[1].max == Some(1_000_000i64),
        r@[1].default == 100_000i64,
        r@[1].step == Some(10_000i64),
        r@[2].name@ == "observer_mode"@,
        r@[2].label@ == "Observer Mode"@,
        r@[2].param_type == ParamKind::Toggle,
        r@[2].min == None::<i64>,
        r@[2].max == None::<i64>,
        r@[2].default == 0i64,
        r@[2].step == None::<i64>,
{
    let mut r: Vec<SimulationParameter> = Vec::new();
    r.push(
        SimulationParameter {
            name: "wavelength".to_owned(),
            label: "Wavelength (nm)".to_owned(),
            param_type: ParamKind::Slider,
            min: Some(400_000_000),
            max: Some(700_000_000),
            default: 550_000_000,
            step: Some(10_000_000),
        },
    );
    r.push(
        SimulationParameter {
            name: "slit_separation".to_owned(),
            label: "Slit Separation (mm)".to_owned(),
            param_type: ParamKind::Slider,
            min: Some(10_000),
            max: Some(1_000_000),
            default: 100_000,
            step: Some(10_000),
        },
    );
    r.push(
        SimulationParameter {
            name: "observer_mode".to_owned(),
            label: "Observer Mode".to_owned(),
            param_type: ParamKind::Toggle,
            min: None,
            max: None,
            default: 0,
            step: None,
        },
    );
    r
}

/// Details of a simulation by identifier. Only the double-slit simulation
/// has a registered schema and theory; every other identifier is unknown.
pub fn get_simulation(id: &str) -> (r: Result<SimulationDetails, SimulationError>)
    ensures
        r is Ok <==> id@ == "double-slit"@,
        r is Err ==> r == Err::<SimulationDetails, SimulationError>(SimulationError::NotFound),
        r is Ok ==> {
            let d = r->Ok_0;
            &&& d.id@ == "double-slit"@
            &&& d.name@ == "Double-Slit Experiment"@
            &&& d.description@
                == "The double-slit experiment demonstrates the fundamentally probabilistic nature of quantum mechanical phenomena."@
            &&& d.parameters@.len() == 3
            &&& d.parameters@[0].name@ == "wavelength"@
            &&& d.parameters@[0].label@ == "Wavelength (nm)"@
            &&& d.parameters@[0].param_type == ParamKind::Slider
            &&& d.parameters@[0].min == Some(400_000_000i64)
            &&& d.parameters@[0].max == Some(700_000_000i64)
            &&& d.parameters@[0].default == 550_000_000i64
            &&& d.parameters@[0].step == Some(10_000_000i64)
            &&& d.parameters@[1].name@ == "slit_separation"@
            &&& d.parameters@[1].label@ == "Slit Separation (mm)"@
            &&& d.parameters@[1].param_type == ParamKind::Slider
            &&& d.parameters@[1].min == Some(10_000i64)
            &&& d.parameters@[1].max == Some(1_000_000i64)
            &&& d.parameters@[1].default == 100_000i64
            &&& d.parameters@[1].step == Some(10_000i64)
            &&& d.parameters@[2].name@ == "observer_mode"@
            &&& d.parameters@[2].label@ == "Observer Mode"@
            &&& d.parameters@[2].param_type == ParamKind::Toggle
            &&& d.parameters@[2].min == None::<i64>
            &&& d.parameters@[2].max == None::<i64>
            &&& d.parameters@[2].default == 0i64
            &&& d.parameters@[2].step == None::<i64>
            &&& d.theory@ == sp_double_slit_theory()
        },
{
    if str_eq(id, "double-slit") {
        Ok(
            SimulationDetails {
                id: "double-slit".to_owned(),
                name: "Double-Slit Experiment".to_owned(),
                description: "The double-slit experiment demonstrates the fundamentally probabilistic nature of quantum mechanical phenomena.".to_owned(),
                parameters: double_slit_schema(),
                theory: "## Wave-Particle Duality\n\nWhen particles like electrons or photons pass through two slits, they create an interference pattern on a detection screen - a behavior characteristic of waves.\n\nHowever, when we try to observe which slit the particle passes through, the interference pattern disappears, and we see two bands - particle behavior.\n\n### Key Concepts:\n1. **Superposition**: The particle exists in a superposition of passing through both slits\n2. **Wave function**: Describes the probability amplitude of the particle's position\n3. **Measurement**: Observing the particle collapses the wave function\n\n### Mathematical Description:\nThe intensity pattern is given by:\n$$I(\\theta) = I_0 \\cos^2\\left(\\frac{\\pi d \\sin(\\theta)}{\\lambda}\\right)$$\n\nWhere:\n- $d$ is the slit separation\n- $\\lambda$ is the wavelength\n- $\\theta$ is the angle from the center\n".to_owned(),
            },
        )
    } else {
        Err(SimulationError::NotFound)
    }
}

} // verus!
