//! The per-step state machine of the mixed-precision optimizer.
//!
//! A step runs through phases: an idle instance begins a step (an empty
//! batch is a no-op, the first real step also orders a cold-start pass),
//! records the backward pass's gradients, checks them for overflow — on
//! overflow the scale halves and the step is skipped with the master
//! weights untouched — and otherwise commits the update rule's products,
//! counts the success and re-derives the compute weights from the new
//! master weights. The engine work between phases (forward and backward
//! passes, gradient clipping, the update rule itself) is the caller's:
//! its products enter as plain values.

use vstd::prelude::*;

use crate::params::{has_overflow, spec_downcast, spec_upcast, synced, ComputeGrad, ParamPair,
    ParamSet};
use crate::scale::{model_overflow, model_success, ScaleModel, ScaleState};

verus! {

/// Construction-time configuration. The learning rate and the gradient
/// clip norm belong to the external update rule and gradient clipper; the
/// core keeps the scale-doubling interval and the initial scale exponent.
#[derive(Clone, Copy, PartialEq, Eq, Debug)]
pub struct NNOptimizerConfig {
    /// Number of consecutive overflow-free committed steps after which the
    /// loss scale doubles.
    pub gradient_scale_update_interval: usize,
    /// Base-two logarithm of the initial loss scale.
    pub initial_scale_log2: i32,
}

/// Construction-time failures; steps never fail.
#[derive(Clone, Copy, PartialEq, Eq, Debug)]
pub enum NNOptimizerError {
    /// The scale-doubling interval must be positive.
    ZeroUpdateInterval,
    /// The two parameter lists must pair up index for index.
    MismatchedParameterLists,
}

/// Where an instance stands inside a step.
#[derive(Clone, Copy, PartialEq, Eq, Debug)]
pub enum Phase {
    /// Between steps.
    Idle,
    /// A step has begun; the backward pass's gradients are awaited.
    Backward,
    /// Gradients are recorded; the overflow check is awaited.
    Decide,
    /// No overflow was found; the update rule's products are awaited.
    Update,
}

/// What a beginning step asks of the caller.
#[derive(Clone, Copy, PartialEq, Eq, Debug)]
pub enum StepBegin {
    /// The batch is empty: the step is a no-op and the instance stays idle.
    Empty,
    /// Run the forward and backward passes over the batch. When
    /// `cold_start` is set, first run one extra pass on a single example so
    /// the master gradient buffers exist; that pass contributes nothing to
    /// the reported losses.
    Run { cold_start: bool },
}

/// A mixed-precision optimizer instance: loss-scale state, the paired
/// parameter lists, the one-shot cold-start flag and the step phase.
pub struct NNOptimizer {
    pub config: NNOptimizerConfig,
    pub scale: ScaleState,
    pub params: ParamSet,
    /// One-shot flag: set by the first real step, never reset.
    pub master_grad_created: bool,
    pub phase: Phase,
}

impl NNOptimizer {
    pub open spec fn wf(self) -> bool {
        &&& self.scale.wf()
        &&& self.scale.update_interval == self.config.gradient_scale_update_interval
    }

    /// Creates an instance from the two parameter lists, paired in their
    /// given order. Construction is the only place a hard failure can
    /// surface: a zero interval or lists of different lengths are rejected,
    /// and nothing else ever fails.
    pub fn new(
        config: NNOptimizerConfig,
        compute_weights: &Vec<u32>,
        master_weights: &Vec<u64>,
    ) -> (r: Result<NNOptimizer, NNOptimizerError>)
        ensures
            r is Ok <==> (config.gradient_scale_update_interval >= 1 && compute_weights@.len()
                == master_weights@.len()),
            config.gradient_scale_update_interval == 0 ==> r == Result::<
                NNOptimizer,
                NNOptimizerError,
            >::Err(NNOptimizerError::ZeroUpdateInterval),
            config.gradient_scale_update_interval >= 1 && compute_weights@.len()
                != master_weights@.len() ==> r == Result::<
                NNOptimizer,
                NNOptimizerError,
            >::Err(NNOptimizerError::MismatchedParameterLists),
            r matches Ok(o) ==> {
                &&& o.wf()
                &&& o.config == config
                &&& o.phase is Idle
                &&& !o.master_grad_created
                &&& o.scale@ == (ScaleModel {
                    exp: config.initial_scale_log2 as int,
                    successes: 0,
                    interval: config.gradient_scale_update_interval as nat,
                })
                &&& o.params@.len() == compute_weights@.len()
                &&& forall|i: int| 0 <= i < o.params@.len() ==> o.params@[i] == (ParamPair {
                    compute_weight: compute_weights@[i],
                    compute_grad: None,
                    master_weight: master_weights@[i],
                    master_grad: 0u64,
                })
            },
    {
        if config.gradient_scale_update_interval == 0 {
            return Err(NNOptimizerError::ZeroUpdateInterval);
        }
        if compute_weights.len() != master_weights.len() {
            return Err(NNOptimizerError::MismatchedParameterLists);
        }
        let scale = ScaleState::new(
            config.initial_scale_log2,
            config.gradient_scale_update_interval,
        );
        let params = ParamSet::pair_up(compute_weights, master_weights);
        Ok(NNOptimizer { config, scale, params, master_grad_created: false, phase: Phase::Idle })
    }

    /// Begins one training step. An empty batch is a degenerate no-op: the
    /// caller reports zero losses and no state changes at all. Otherwise
    /// the instance moves to the backward phase, and exactly the first real
    /// step on a fresh instance orders a cold-start pass; the one-shot flag
    /// is set and never reset.
    pub fn step(&mut self, batch_size: usize) -> (r: StepBegin)
        requires
            old(self).wf(),
            old(self).phase is Idle,
        ensures
            final(self).wf(),
            batch_size == 0 ==> r is Empty && *final(self) == *old(self),
            batch_size >= 1 ==> {
                &&& r == (StepBegin::Run { cold_start: !old(self).master_grad_created })
                &&& *final(self) == (NNOptimizer {
                    master_grad_created: true,
                    phase: Phase::Backward,
                    ..*old(self)
                })
            },
    {
        if batch_size == 0 {
            return StepBegin::Empty;
        }
        let cold_start = !self.master_grad_created;
        self.master_grad_created = true;
        self.phase = Phase::Backward;
        StepBegin::Run { cold_start }
    }

    /// Records the products of the scaled backward pass: every compute
    /// gradient is first cleared, then each parameter the pass touched
    /// receives its reported gradient, so no gradient survives from an
    /// earlier step. Weights, master gradients and the scale are untouched.
    pub fn record_backward(&mut self, grads: &Vec<Option<ComputeGrad>>)
        requires
            old(self).wf(),
            old(self).phase is Backward,
            grads@.len() == old(self).params@.len(),
        ensures
            final(self).wf(),
            final(self).phase is Decide,
            final(self).scale == old(self).scale,
            final(self).config == old(self).config,
            final(self).master_grad_created == old(self).master_grad_created,
            final(self).params@.len() == old(self).params@.len(),
            forall|i: int| 0 <= i < old(self).params@.len() ==> final(self).params@[i]
                == (ParamPair { compute_grad: grads@[i], ..old(self).params@[i] }),
    {
        self.params.zero_compute_gradients();
        self.params.apply_backward(grads);
        self.phase = Phase::Decide;
    }

    /// Scans the recorded gradients and resolves the step. On overflow the
    /// scale halves, the success run resets and the step is skipped with
    /// everything else untouched — in particular every master weight is
    /// bit-identical to its value before the call. Without overflow the
    /// master gradients are overwritten (never accumulated into) with the
    /// widened compute gradients and the instance awaits the update rule's
    /// products; the scale is not yet touched.
    pub fn check_gradients(&mut self) -> (overflow: bool)
        requires
            old(self).wf(),
            old(self).phase is Decide,
            has_overflow(old(self).params@) ==> old(self).scale.scale_log2 > i32::MIN,
        ensures
            final(self).wf(),
            overflow == has_overflow(old(self).params@),
            final(self).config == old(self).config,
            final(self).master_grad_created == old(self).master_grad_created,
            overflow ==> {
                &&& final(self).phase is Idle
                &&& final(self).scale@ == model_overflow(old(self).scale@)
                &&& final(self).params == old(self).params
            },
            !overflow ==> {
                &&& final(self).phase is Update
                &&& final(self).scale == old(self).scale
                &&& final(self).params@.len() == old(self).params@.len()
                &&& forall|i: int| 0 <= i < old(self).params@.len() ==> final(self).params@[i]
                    == (ParamPair {
                    master_grad: match old(self).params@[i].compute_grad {
                        Some(g) => spec_upcast(g.bits),
                        None => old(self).params@[i].master_grad,
                    },
                    ..old(self).params@[i]
                })
            },
    {
        let overflow = self.params.scan_for_overflow();
        if overflow {
            self.scale.on_overflow();
            self.phase = Phase::Idle;
        } else {
            self.params.upcast_gradients_into_master();
            self.phase = Phase::Update;
        }
        overflow
    }

    /// Commits the step. The update rule's products become the new master
    /// weights, the success is counted — after `update_interval`
    /// consecutive successes the scale doubles and the run resets — and
    /// every compute weight is overwritten with the narrowing cast of its
    /// new master weight, so both copies agree again. Master gradients
    /// still hold exactly this step's gradients.
    pub fn commit_update(&mut self, updated_master_weights: &Vec<u64>)
        requires
            old(self).wf(),
            old(self).phase is Update,
            updated_master_weights@.len() == old(self).params@.len(),
            old(self).scale@.successes + 1 >= old(self).scale@.interval ==> old(
                self,
            ).scale.scale_log2 < i32::MAX,
        ensures
            final(self).wf(),
            final(self).phase is Idle,
            final(self).config == old(self).config,
            final(self).master_grad_created == old(self).master_grad_created,
            final(self).scale@ == model_success(old(self).scale@),
            final(self).params@.len() == old(self).params@.len(),
            forall|i: int| 0 <= i < old(self).params@.len() ==> final(self).params@[i]
                == (ParamPair {
                compute_weight: spec_downcast(updated_master_weights@[i]),
                master_weight: updated_master_weights@[i],
                ..old(self).params@[i]
            }),
            synced(final(self).params@),
    {
        self.params.apply_master_update(updated_master_weights);
        self.scale.on_success();
        self.params.downcast_weights_into_compute();
        self.phase = Phase::Idle;
    }
}

} // verus!
