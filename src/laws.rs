use vstd::prelude::*;

use crate::plan::{lemma_floor_partition, plan_outcome, PlanView};
use crate::sampler::{total_remaining, SamplerView};

verus! {

/// With no simulation requested, a valid request runs no trial at all and
/// has no divisor, so its price is zero whatever the other parameters are.
pub proof fn zero_simulations_run_nothing(pool_len: int, num_workers: int)
    requires
        pool_len > 0,
        num_workers > 0,
    ensures
        plan_outcome(pool_len, 0, num_workers) matches Ok(v) && v.per_worker == 0
            && v.trials_executed() == 0 && v.price_divisor() is None,
{
    assert(0int / num_workers == 0);
}

/// Partitioning gives every worker the floor of `n / w` draws and never
/// makes up for the remainder: exactly `n mod w` requested draws are dropped,
/// fewer than one per worker.
pub proof fn remainder_is_dropped(pool_len: int, n: int, w: int)
    requires
        pool_len > 0,
        n >= 0,
        w > 0,
    ensures
        plan_outcome(pool_len, n, w) matches Ok(v) && v.per_worker == n / w
            && v.trials_executed() <= n && n - v.trials_executed() == n % w
            && n - v.trials_executed() < w,
{
    lemma_floor_partition(n, w);
}

/// The samplers handed to the workers of a plan carry, all together, exactly
/// the draws the plan executes.
pub proof fn dispatched_draws_match_plan(plan: PlanView, samplers: Seq<SamplerView>)
    requires
        samplers.len() == plan.num_workers,
        forall|i: int| 0 <= i < samplers.len() ==> (#[trigger] samplers[i]).remaining == plan.per_worker,
    ensures
        total_remaining(samplers) == plan.trials_executed(),
{
    lemma_uniform_total(samplers, plan.per_worker);
}

proof fn lemma_uniform_total(samplers: Seq<SamplerView>, share: nat)
    requires
        forall|i: int| 0 <= i < samplers.len() ==> (#[trigger] samplers[i]).remaining == share,
    ensures
        total_remaining(samplers) == share * samplers.len(),
    decreases samplers.len(),
{
    if samplers.len() > 0 {
        let rest = samplers.drop_last();
        assert forall|i: int| 0 <= i < rest.len() implies (#[trigger] rest[i]).remaining == share by {
            assert(rest[i] == samplers[i]);
        }
        lemma_uniform_total(rest, share);
        assert(share * samplers.len() == share * rest.len() + share) by (nonlinear_arith)
            requires
                samplers.len() == rest.len() + 1,
        ;
    }
}

} // verus!
