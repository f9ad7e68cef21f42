use monte_carlo::{SimulationError, SimulationPlan, TrialSampler};
use rand::rngs::StdRng;
use rand::SeedableRng;

fn drain(sampler: &mut TrialSampler, rng: &mut StdRng) -> Vec<usize> {
    let mut drawn = Vec::new();
    while let Some(i) = sampler.next_index(rng) {
        drawn.push(i);
    }
    drawn
}

/// Prices a call with zero volatility: every trial projects the sampled value
/// by `exp(r * T)` alone.
fn price_without_volatility(samples: &[f64], strike: f64, rate: f64, maturity: f64, plan: &SimulationPlan) -> f64 {
    let mut rng = StdRng::seed_from_u64(11);
    let mut total = 0.0;
    for mut sampler in plan.worker_samplers() {
        let mut partial = 0.0;
        while let Some(i) = sampler.next_index(&mut rng) {
            let projected = samples[i] * (rate * maturity).exp();
            partial += (projected - strike).max(0.0);
        }
        total += partial;
    }
    match plan.price_divisor() {
        None => 0.0,
        Some(d) => (total / d as f64) * (1.0 / (1.0 + rate * maturity)),
    }
}

#[test]
fn empty_pool_is_refused() {
    assert_eq!(SimulationPlan::new(0, 10, 2).err(), Some(SimulationError::EmptySamplePool));
}

#[test]
fn empty_pool_is_reported_before_other_errors() {
    assert_eq!(SimulationPlan::new(0, -5, 0).err(), Some(SimulationError::EmptySamplePool));
}

#[test]
fn zero_workers_are_refused() {
    assert_eq!(SimulationPlan::new(4, 10, 0).err(), Some(SimulationError::InvalidWorkerCount));
}

#[test]
fn negative_workers_are_refused() {
    assert_eq!(SimulationPlan::new(4, 10, -3).err(), Some(SimulationError::InvalidWorkerCount));
}

#[test]
fn negative_simulations_are_refused() {
    assert_eq!(SimulationPlan::new(4, -5, 2).err(), Some(SimulationError::InvalidSimulationCount));
}

#[test]
fn negative_simulations_come_before_worker_count() {
    assert_eq!(SimulationPlan::new(4, -5, 0).err(), Some(SimulationError::InvalidSimulationCount));
}

#[test]
fn errors_have_messages() {
    for e in [
        SimulationError::EmptySamplePool,
        SimulationError::InvalidWorkerCount,
        SimulationError::InvalidSimulationCount,
    ] {
        assert!(!e.message().is_empty());
    }
}

#[test]
fn remainder_trials_are_dropped() {
    let plan = SimulationPlan::new(5, 7, 3).unwrap();
    assert_eq!(plan.simulations_per_worker(), 2);
    assert_eq!(plan.trials_executed(), 6);
    assert_eq!(plan.dropped_trials(), 1);
    assert_eq!(plan.price_divisor(), Some(7));
    let mut rng = StdRng::seed_from_u64(3);
    let samplers = plan.worker_samplers();
    assert_eq!(samplers.len(), 3);
    let mut run = 0;
    for mut sampler in samplers {
        let drawn = drain(&mut sampler, &mut rng);
        assert_eq!(drawn.len(), 2);
        run += drawn.len();
    }
    assert_eq!(run, 6);
}

#[test]
fn zero_simulations_run_no_trial() {
    let plan = SimulationPlan::new(3, 0, 4).unwrap();
    assert_eq!(plan.simulations_per_worker(), 0);
    assert_eq!(plan.trials_executed(), 0);
    assert_eq!(plan.dropped_trials(), 0);
    assert_eq!(plan.price_divisor(), None);
    let mut rng = StdRng::seed_from_u64(5);
    for mut sampler in plan.worker_samplers() {
        assert_eq!(sampler.next_index(&mut rng), None);
    }
    assert_eq!(price_without_volatility(&[100.0, 90.0, 120.0], 100.0, 0.025, 1.0, &plan), 0.0);
}

#[test]
fn fewer_simulations_than_workers() {
    let plan = SimulationPlan::new(2, 3, 8).unwrap();
    assert_eq!(plan.simulations_per_worker(), 0);
    assert_eq!(plan.trials_executed(), 0);
    assert_eq!(plan.dropped_trials(), 3);
    assert_eq!(plan.price_divisor(), Some(3));
    assert_eq!(plan.worker_samplers().len(), 8);
}

#[test]
fn largest_simulation_count_fits() {
    let plan = SimulationPlan::new(1, i32::MAX, 1).unwrap();
    assert_eq!(plan.simulations_per_worker(), i32::MAX as u32);
    assert_eq!(plan.trials_executed(), i32::MAX as u32);
    assert_eq!(plan.dropped_trials(), 0);
    let plan = SimulationPlan::new(1, i32::MAX, i32::MAX).unwrap();
    assert_eq!(plan.simulations_per_worker(), 1);
}

#[test]
fn plan_reports_its_request() {
    let plan = SimulationPlan::new(9, 1000, 10).unwrap();
    assert_eq!(plan.pool_len(), 9);
    assert_eq!(plan.num_simulations(), 1000);
    assert_eq!(plan.num_workers(), 10);
}

#[test]
fn sampled_indices_stay_in_the_pool() {
    let plan = SimulationPlan::new(5, 400, 4).unwrap();
    let mut rng = StdRng::seed_from_u64(42);
    let mut seen = [false; 5];
    for mut sampler in plan.worker_samplers() {
        assert_eq!(sampler.pool_len(), 5);
        assert_eq!(sampler.remaining(), 100);
        let drawn = drain(&mut sampler, &mut rng);
        assert_eq!(drawn.len(), 100);
        assert_eq!(sampler.remaining(), 0);
        for i in drawn {
            assert!(i < 5);
            seen[i] = true;
        }
    }
    assert!(seen.iter().all(|s| *s));
}

#[test]
fn exhausted_sampler_stays_exhausted() {
    let plan = SimulationPlan::new(2, 1, 1).unwrap();
    let mut samplers = plan.worker_samplers();
    let mut rng = StdRng::seed_from_u64(1);
    let sampler = &mut samplers[0];
    assert!(sampler.next_index(&mut rng).is_some());
    assert_eq!(sampler.next_index(&mut rng), None);
    assert_eq!(sampler.next_index(&mut rng), None);
    assert_eq!(sampler.remaining(), 0);
}

#[test]
fn single_value_pool_always_gives_index_zero() {
    let plan = SimulationPlan::new(1, 1000, 10).unwrap();
    assert_eq!(plan.simulations_per_worker(), 100);
    assert_eq!(plan.trials_executed(), 1000);
    let mut rng = StdRng::seed_from_u64(9);
    for mut sampler in plan.worker_samplers() {
        assert!(drain(&mut sampler, &mut rng).iter().all(|i| *i == 0));
    }
}

#[test]
fn end_to_end_without_volatility() {
    let plan = SimulationPlan::new(1, 1000, 10).unwrap();
    assert_eq!(plan.simulations_per_worker(), 100);
    assert_eq!(plan.trials_executed(), 1000);
    let price = price_without_volatility(&[100.0], 100.0, 0.025, 1.0, &plan);
    assert!((price - 2.4698).abs() < 1e-3);
    let expected = (100.0 * (0.025f64).exp() - 100.0).max(0.0) / 1.025;
    assert!((price - expected).abs() < 1e-9);
}
