//! A catalog of physics teaching simulations and the numeric engine behind
//! them.
//!
//! The engine computes, for a simulation identifier and a set of named
//! parameters, a deterministic intensity profile sampled across a screen.
//! All arithmetic is fixed-point over integers: a quantity `q` is carried as
//! `round(q * 1_000_000)` (micro-units), so every result is an exact,
//! machine-independent function of its inputs.

pub mod catalog;
pub mod engine;
pub mod fixed;
pub mod laws;
pub mod params;
pub mod run;

pub use catalog::{SimulationDetails, SimulationError, SimulationInfo, get_simulation,
    list_simulations};
pub use engine::calculate_interference_pattern;
pub use fixed::SCALE;
pub use params::{ParamKind, RawValue, SimulationParameter};
pub use run::{RunSimulationRequest, SimulationResult, run_simulation};
