use nn_optimizer::optimizer::{NNOptimizer, NNOptimizerConfig, NNOptimizerError, Phase, StepBegin};
use nn_optimizer::params::{downcast, upcast, ComputeGrad};
use nn_optimizer::scale::ScaleState;

fn initial_compute() -> Vec<u32> {
    vec![0x3f80_0000, 0x4000_0000]
}

fn initial_master() -> Vec<u64> {
    vec![0x3f80_0000_0000_0000, 0x4000_0000_0000_0000]
}

fn fresh(interval: usize) -> NNOptimizer {
    let config = NNOptimizerConfig {
        gradient_scale_update_interval: interval,
        initial_scale_log2: 16,
    };
    let compute: Vec<u32> = initial_compute();
    let master: Vec<u64> = initial_master();
    NNOptimizer::new(config, &compute, &master).unwrap()
}

fn finite_grads(a: u32, b: u32) -> Vec<Option<ComputeGrad>> {
    vec![
        Some(ComputeGrad { bits: a, overflow: false }),
        Some(ComputeGrad { bits: b, overflow: false }),
    ]
}

/// Runs one full overflow-free step; the external update rule is stood in
/// for by nudging every master weight.
fn committed_step(o: &mut NNOptimizer) {
    let begin = o.step(1);
    assert!(matches!(begin, StepBegin::Run { .. }));
    let grads = finite_grads(0x100, 0x200);
    o.record_backward(&grads);
    let overflow = o.check_gradients();
    assert!(!overflow);
    let updated: Vec<u64> = o
        .params
        .pairs
        .iter()
        .map(|p| p.master_weight + (1u64 << 32))
        .collect();
    o.commit_update(&updated);
}

#[test]
fn construction_rejects_zero_interval() {
    let config = NNOptimizerConfig { gradient_scale_update_interval: 0, initial_scale_log2: 16 };
    let compute: Vec<u32> = initial_compute();
    let master: Vec<u64> = initial_master();
    let r = NNOptimizer::new(config, &compute, &master);
    match r {
        Err(e) => assert_eq!(e, NNOptimizerError::ZeroUpdateInterval),
        Ok(_) => panic!("construction should have been rejected"),
    }
}

#[test]
fn construction_rejects_mismatched_lists() {
    let config = NNOptimizerConfig { gradient_scale_update_interval: 2, initial_scale_log2: 16 };
    let compute: Vec<u32> = vec![1, 2, 3];
    let master: Vec<u64> = initial_master();
    let r = NNOptimizer::new(config, &compute, &master);
    match r {
        Err(e) => assert_eq!(e, NNOptimizerError::MismatchedParameterLists),
        Ok(_) => panic!("construction should have been rejected"),
    }
}

#[test]
fn empty_batch_is_a_no_op() {
    let mut o = fresh(2);
    let pairs_before = o.params.pairs.clone();
    let begin = o.step(0);
    assert_eq!(begin, StepBegin::Empty);
    assert_eq!(o.phase, Phase::Idle);
    assert!(!o.master_grad_created);
    assert_eq!(o.scale.scale_log2, 16);
    assert_eq!(o.scale.consecutive_successes, 0);
    assert_eq!(o.params.pairs, pairs_before);
}

#[test]
fn cold_start_only_on_first_real_step() {
    let mut o = fresh(2);
    // An empty batch does not count as the first real step.
    assert_eq!(o.step(0), StepBegin::Empty);
    assert_eq!(o.step(4), StepBegin::Run { cold_start: true });
    o.record_backward(&finite_grads(1, 2));
    assert!(!o.check_gradients());
    let updated: Vec<u64> = initial_master();
    o.commit_update(&updated);
    // The flag is one-shot: no later step cold-starts again.
    assert_eq!(o.step(4), StepBegin::Run { cold_start: false });
}

#[test]
fn overflow_halves_scale_and_preserves_master() {
    let mut o = fresh(2);
    assert_eq!(o.scale.scale_value(), 65536);
    let begin = o.step(1);
    assert_eq!(begin, StepBegin::Run { cold_start: true });
    // One NaN gradient on the first real step.
    let grads = vec![
        Some(ComputeGrad { bits: 0x7fc0_0000, overflow: true }),
        Some(ComputeGrad { bits: 0x300, overflow: false }),
    ];
    o.record_backward(&grads);
    let overflow = o.check_gradients();
    assert!(overflow);
    assert_eq!(o.scale.scale_value(), 32768);
    assert_eq!(o.scale.consecutive_successes, 0);
    assert_eq!(o.phase, Phase::Idle);
    // Master weights are bit-identical to their initialized values, and the
    // compute weights and master gradients were never touched either.
    let master = initial_master();
    let compute = initial_compute();
    for (i, p) in o.params.pairs.iter().enumerate() {
        assert_eq!(p.master_weight, master[i]);
        assert_eq!(p.compute_weight, compute[i]);
        assert_eq!(p.master_grad, 0);
    }
}

#[test]
fn scenario_interval_two_three_steps() {
    let mut o = fresh(2);
    assert_eq!(o.scale.scale_value(), 65536);
    committed_step(&mut o);
    assert_eq!(o.scale.scale_value(), 65536);
    assert_eq!(o.scale.consecutive_successes, 1);
    committed_step(&mut o);
    assert_eq!(o.scale.scale_value(), 131072);
    assert_eq!(o.scale.consecutive_successes, 0);
    committed_step(&mut o);
    assert_eq!(o.scale.scale_value(), 131072);
    assert_eq!(o.scale.consecutive_successes, 1);
}

#[test]
fn interval_consecutive_successes_doubles() {
    let mut o = fresh(3);
    committed_step(&mut o);
    committed_step(&mut o);
    assert_eq!(o.scale.scale_log2, 16);
    assert_eq!(o.scale.consecutive_successes, 2);
    committed_step(&mut o);
    assert_eq!(o.scale.scale_log2, 17);
    assert_eq!(o.scale.consecutive_successes, 0);
}

#[test]
fn committed_step_syncs_compute_weights() {
    let mut o = fresh(2);
    committed_step(&mut o);
    for p in o.params.pairs.iter() {
        assert_eq!(p.compute_weight, (p.master_weight >> 32) as u32);
    }
}

#[test]
fn master_gradients_overwritten_not_accumulated() {
    let mut o = fresh(5);
    o.step(1);
    o.record_backward(&finite_grads(0x11, 0x22));
    assert!(!o.check_gradients());
    let updated: Vec<u64> = initial_master();
    o.commit_update(&updated);
    assert_eq!(o.params.pairs[0].master_grad, 0x11u64 << 32);
    o.step(1);
    o.record_backward(&finite_grads(0x33, 0x44));
    assert!(!o.check_gradients());
    // The second step's gradient replaces the first's; it is never summed
    // into it.
    assert_eq!(o.params.pairs[0].master_grad, 0x33u64 << 32);
    assert_eq!(o.params.pairs[1].master_grad, 0x44u64 << 32);
}

#[test]
fn undefined_gradient_pairs_are_skipped() {
    let mut o = fresh(2);
    o.step(1);
    let grads = vec![Some(ComputeGrad { bits: 0x55, overflow: false }), None];
    o.record_backward(&grads);
    assert!(!o.check_gradients());
    // The pair without a defined gradient keeps its master gradient buffer.
    assert_eq!(o.params.pairs[0].master_grad, 0x55u64 << 32);
    assert_eq!(o.params.pairs[1].master_grad, 0);
    assert_eq!(o.params.pairs[1].compute_grad, None);
}

#[test]
fn repeated_overflows_keep_halving() {
    let mut o = fresh(2);
    for expected in [32768u64, 16384, 8192] {
        o.step(1);
        let grads = vec![
            Some(ComputeGrad { bits: 0x7f80_0000, overflow: true }),
            None,
        ];
        o.record_backward(&grads);
        assert!(o.check_gradients());
        assert_eq!(o.scale.scale_value(), expected);
    }
    assert_eq!(o.scale.scale_log2, 13);
}

#[test]
fn scale_has_no_floor() {
    // The halving policy has no lower bound: the exponent walks below zero.
    let mut s = ScaleState::new(0, 2);
    s.on_overflow();
    assert_eq!(s.scale_log2, -1);
    s.on_overflow();
    assert_eq!(s.scale_log2, -2);
}

#[test]
fn scale_value_exact() {
    assert_eq!(ScaleState::new(0, 1).scale_value(), 1);
    assert_eq!(ScaleState::new(16, 1).scale_value(), 65536);
    assert_eq!(ScaleState::new(63, 1).scale_value(), 1u64 << 63);
}

#[test]
fn scale_controller_sequence() {
    let mut s = ScaleState::new(16, 2);
    s.on_success();
    assert_eq!((s.scale_log2, s.consecutive_successes), (16, 1));
    s.on_success();
    assert_eq!((s.scale_log2, s.consecutive_successes), (17, 0));
    s.on_overflow();
    assert_eq!((s.scale_log2, s.consecutive_successes), (16, 0));
}

#[test]
fn casts_round_trip() {
    assert_eq!(upcast(0xdead_beef), 0xdead_beef_0000_0000u64);
    assert_eq!(downcast(0xdead_beef_0000_0000u64), 0xdead_beef);
    assert_eq!(downcast(upcast(7)), 7);
}
