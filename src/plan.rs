use vstd::prelude::*;

use crate::error::SimulationError;
use crate::sampler::{SamplerView, TrialSampler};
use vstd::arithmetic::div_mod::{lemma_fundamental_div_mod, lemma_mod_pos_bound};

verus! {

/// What a validated simulation plan stands for.
pub struct PlanView {
    /// Number of values in the sample pool the workers draw from.
    pub pool_len: nat,
    /// Total number of draws that were requested.
    pub num_simulations: nat,
    /// Number of workers the draws are split over.
    pub num_workers: nat,
    /// Draws assigned to each worker.
    pub per_worker: nat,
}

impl PlanView {
    /// Draws actually run over all workers together.
    pub open spec fn trials_executed(self) -> nat {
        self.per_worker * self.num_workers
    }

    /// What the pricer divides the total payoff by: the requested count, or
    /// nothing at all when no simulation was requested (the price is then zero).
    pub open spec fn price_divisor(self) -> Option<nat> {
        if self.num_simulations == 0 {
            None
        } else {
            Some(self.num_simulations)
        }
    }
}

/// The outcome of validating a pricing request: which error is raised, and
/// otherwise how the draws are partitioned. The pool is checked first, then
/// the simulation count, then the worker count. Each worker gets the floor of
/// the simulation count divided by the worker count; the remainder is dropped.
pub open spec fn plan_outcome(pool_len: int, num_simulations: int, num_workers: int) -> Result<
    PlanView,
    SimulationError,
> {
    if pool_len <= 0 {
        Err(SimulationError::EmptySamplePool)
    } else if num_simulations < 0 {
        Err(SimulationError::InvalidSimulationCount)
    } else if num_workers <= 0 {
        Err(SimulationError::InvalidWorkerCount)
    } else {
        Ok(
            PlanView {
                pool_len: pool_len as nat,
                num_simulations: num_simulations as nat,
                num_workers: num_workers as nat,
                per_worker: (num_simulations / num_workers) as nat,
            },
        )
    }
}

/// Floor division splits `n` into `n / w` shares of `w` and a remainder
/// below `w`.
pub(crate) proof fn lemma_floor_partition(n: int, w: int)
    requires
        n >= 0,
        w > 0,
    ensures
        (n / w) * w + n % w == n,
        0 <= n % w < w,
        n / w >= 0,
        (n / w) * w <= n,
{
    lemma_fundamental_div_mod(n, w);
    lemma_mod_pos_bound(n, w);
    assert(w * (n / w) == (n / w) * w) by (nonlinear_arith);
    assert(n / w >= 0) by (nonlinear_arith)
        requires
            n >= 0,
            w > 0,
            w * (n / w) + n % w == n,
            n % w < w,
    ;
}

/// A validated partition of a simulation count over workers.
pub struct SimulationPlan {
    pool_len: usize,
    num_simulations: u32,
    num_workers: u32,
    per_worker: u32,
}

impl View for SimulationPlan {
    type V = PlanView;

    closed spec fn view(&self) -> PlanView {
        PlanView {
            pool_len: self.pool_len as nat,
            num_simulations: self.num_simulations as nat,
            num_workers: self.num_workers as nat,
            per_worker: self.per_worker as nat,
        }
    }
}

impl SimulationPlan {
    #[verifier::type_invariant]
    closed spec fn well_formed(self) -> bool {
        &&& self.pool_len > 0
        &&& self.num_simulations <= i32::MAX
        &&& self.num_workers > 0
        &&& self.num_workers <= i32::MAX
        &&& self.per_worker == self.num_simulations / self.num_workers
    }

    /// Validates a pricing request and partitions its simulations.
    pub fn new(pool_len: usize, num_simulations: i32, num_workers: i32) -> (r: Result<
        SimulationPlan,
        SimulationError,
    >)
        ensures
            match r {
                Ok(plan) => plan_outcome(pool_len as int, num_simulations as int, num_workers as int)
                    == Ok::<PlanView, SimulationError>(plan@),
                Err(e) => plan_outcome(pool_len as int, num_simulations as int, num_workers as int)
                    == Err::<PlanView, SimulationError>(e),
            },
    {
        if pool_len == 0 {
            return Err(SimulationError::EmptySamplePool);
        }
        if num_simulations < 0 {
            return Err(SimulationError::InvalidSimulationCount);
        }
        if num_workers <= 0 {
            return Err(SimulationError::InvalidWorkerCount);
        }
        let num_simulations = num_simulations as u32;
        let num_workers = num_workers as u32;
        Ok(
            SimulationPlan {
                pool_len,
                num_simulations,
                num_workers,
                per_worker: num_simulations / num_workers,
            },
        )
    }

    /// Size of the sample pool the workers draw from.
    pub fn pool_len(&self) -> (r: usize)
        ensures
            r == self@.pool_len,
    {
        self.pool_len
    }

    /// Total number of draws that were requested.
    pub fn num_simulations(&self) -> (r: u32)
        ensures
            r == self@.num_simulations,
    {
        self.num_simulations
    }

    /// Number of workers the draws are split over.
    pub fn num_workers(&self) -> (r: u32)
        ensures
            r == self@.num_workers,
    {
        self.num_workers
    }

    /// Draws assigned to each worker: the requested count divided by the
    /// worker count, rounded down.
    pub fn simulations_per_worker(&self) -> (r: u32)
        ensures
            r == self@.per_worker,
            r == self@.num_simulations / self@.num_workers,
    {
        proof {
            use_type_invariant(self);
        }
        self.per_worker
    }

    /// Draws actually run over all workers together.
    pub fn trials_executed(&self) -> (r: u32)
        ensures
            r == self@.trials_executed(),
            r <= self@.num_simulations,
    {
        proof {
            use_type_invariant(self);
            lemma_floor_partition(self.num_simulations as int, self.num_workers as int);
        }
        self.per_worker * self.num_workers
    }

    /// Requested draws that no worker runs: the remainder of the division.
    pub fn dropped_trials(&self) -> (r: u32)
        ensures
            r == self@.num_simulations - self@.trials_executed(),
            r == self@.num_simulations % self@.num_workers,
            r < self@.num_workers,
    {
        proof {
            use_type_invariant(self);
            lemma_floor_partition(self.num_simulations as int, self.num_workers as int);
        }
        self.num_simulations % self.num_workers
    }

    /// What the pricer divides the summed payoff by, or `None` when no
    /// simulation was requested and the price is zero.
    pub fn price_divisor(&self) -> (r: Option<u32>)
        ensures
            r matches Some(d) ==> self@.price_divisor() == Some(d as nat),
            r is None ==> self@.price_divisor() is None,
    {
        if self.num_simulations == 0 {
            None
        } else {
            Some(self.num_simulations)
        }
    }

    /// One sampler per worker, each for the same share of the draws.
    pub fn worker_samplers(&self) -> (r: Vec<TrialSampler>)
        ensures
            r.len() == self@.num_workers,
            forall|i: int|
                0 <= i < r.len() ==> r[i]@ == (SamplerView {
                    pool_len: self@.pool_len,
                    remaining: self@.per_worker,
                }),
    {
        proof {
            use_type_invariant(self);
        }
        let mut samplers: Vec<TrialSampler> = Vec::new();
        let mut k: u32 = 0;
        while k < self.num_workers
            invariant
                self.pool_len > 0,
                k <= self.num_workers,
                samplers.len() == k,
                forall|i: int|
                    0 <= i < samplers.len() ==> samplers[i]@ == (SamplerView {
                        pool_len: self@.pool_len,
                        remaining: self@.per_worker,
                    }),
            decreases self.num_workers - k,
        {
            samplers.push(TrialSampler::for_worker(self.pool_len, self.per_worker));
            k = k + 1;
        }
        samplers
    }
}

} // verus!
