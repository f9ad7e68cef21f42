use vstd::prelude::*;

verus! {

/// Why a pricing call was refused. Every error is raised before any worker
/// is dispatched, so no partial result ever exists.
#[derive(Debug, Clone, Copy, PartialEq, Eq, Structural)]
pub enum SimulationError {
    /// The historical sample pool holds no value to resample from.
    EmptySamplePool,
    /// The requested number of workers is zero or negative.
    InvalidWorkerCount,
    /// The requested number of simulations is negative.
    InvalidSimulationCount,
}

impl SimulationError {
    /// A short human-readable description of the error.
    pub fn message(&self) -> (r: &'static str)
        ensures
            r@.len() > 0,
    {
        match self {
            SimulationError::EmptySamplePool => {
                proof {
                    reveal_strlit("the sample pool is empty");
                }
                "the sample pool is empty"
            },
            SimulationError::InvalidWorkerCount => {
                proof {
                    reveal_strlit("the number of workers must be positive");
                }
                "the number of workers must be positive"
            },
            SimulationError::InvalidSimulationCount => {
                proof {
                    reveal_strlit("the number of simulations must not be negative");
                }
                "the number of simulations must not be negative"
            },
        }
    }
}

} // verus!
