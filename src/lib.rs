//! Validation, partitioning and bootstrap sampling for a parallel Monte Carlo
//! option pricer.
//!
//! The engine splits a simulation count over independent workers, each of
//! which draws sample-pool indices from its own random generator. What happens
//! to a drawn value (the drift-diffusion step, the payoff and the discounting)
//! is left to the caller, which works in floating point.
pub mod error;
pub mod plan;
pub mod sampler;
pub mod laws;

pub use error::SimulationError;
pub use plan::{PlanView, SimulationPlan};
pub use sampler::{SamplerView, TrialSampler};
