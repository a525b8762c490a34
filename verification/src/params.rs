//! Synchronization between the two precision copies of the trainable
//! parameters.
//!
//! Each trainable parameter exists twice: a full-precision master word,
//! the ground truth that receives the update rule's products, and a
//! reduced-precision compute word used by the forward and backward passes.
//! The model narrows a 64-bit master word to its high 32 bits and widens a
//! compute word back into the high half. Both lists are paired index for
//! index, in a fixed order that is never re-sorted.

use vstd::prelude::*;

verus! {

/// Backward-pass product for one compute-precision parameter: the gradient
/// word, and whether the engine found it NaN or infinite.
#[derive(Clone, Copy, PartialEq, Eq, Debug)]
pub struct ComputeGrad {
    pub bits: u32,
    pub overflow: bool,
}

/// One trainable parameter in both precisions. `compute_grad` is `None`
/// while the parameter has no defined gradient (before the first backward
/// pass, after a reset, or when a pass did not touch it).
#[derive(Clone, Copy, PartialEq, Eq, Debug)]
pub struct ParamPair {
    pub compute_weight: u32,
    pub compute_grad: Option<ComputeGrad>,
    pub master_weight: u64,
    pub master_grad: u64,
}

/// The model's widening cast: the compute word fills the high half of a
/// master word, the low half (the extra precision) is zero.
pub open spec fn spec_upcast(g: u32) -> u64 {
    (g as u64) << 32u64
}

/// The model's narrowing cast: keep the high half of the master word.
pub open spec fn spec_downcast(w: u64) -> u32 {
    (w >> 32u64) as u32
}

/// Whether this pair's compute gradient is defined and overflowed.
pub open spec fn grad_overflowed(p: ParamPair) -> bool {
    match p.compute_grad {
        Some(g) => g.overflow,
        None => false,
    }
}

/// Whether any pair carries an overflowed compute gradient.
pub open spec fn has_overflow(s: Seq<ParamPair>) -> bool {
    exists|i: int| 0 <= i < s.len() && grad_overflowed(s[i])
}

/// Downcast invariant: every compute weight is the narrowing cast of its
/// master weight.
pub open spec fn synced(s: Seq<ParamPair>) -> bool {
    forall|i: int| 0 <= i < s.len() ==> s[i].compute_weight == spec_downcast(s[i].master_weight)
}

/// Narrowing cast from a master word to a compute word.
pub fn downcast(w: u64) -> (r: u32)
    ensures
        r == spec_downcast(w),
{
    (w >> 32u64) as u32
}

/// Widening cast from a compute word to a master word.
pub fn upcast(g: u32) -> (r: u64)
    ensures
        r == spec_upcast(g),
{
    (g as u64) << 32u64
}

/// The ordered sequence of parameter pairs an optimizer instance owns.
pub struct ParamSet {
    pub pairs: Vec<ParamPair>,
}

impl View for ParamSet {
    type V = Seq<ParamPair>;

    open spec fn view(&self) -> Seq<ParamPair> {
        self.pairs@
    }
}

impl ParamSet {
    /// Pairs the compute-precision and master-precision parameter lists in
    /// their given, fixed order. Gradients start undefined: gradient
    /// storage is materialized lazily, on the first real step.
    pub fn pair_up(compute_weights: &Vec<u32>, master_weights: &Vec<u64>) -> (r: ParamSet)
        requires
            compute_weights@.len() == master_weights@.len(),
        ensures
            r@.len() == compute_weights@.len(),
            forall|i: int| 0 <= i < r@.len() ==> r@[i] == (ParamPair {
                compute_weight: compute_weights@[i],
                compute_grad: None,
                master_weight: master_weights@[i],
                master_grad: 0u64,
            }),
    {
        let n = compute_weights.len();
        let mut pairs: Vec<ParamPair> = Vec::new();
        let mut i: usize = 0;
        while i < n
            invariant
                i <= n,
                n == compute_weights@.len(),
                n == master_weights@.len(),
                pairs@.len() == i,
                forall|j: int| 0 <= j < i ==> pairs@[j] == (ParamPair {
                    compute_weight: compute_weights@[j],
                    compute_grad: None,
                    master_weight: master_weights@[j],
                    master_grad: 0u64,
                }),
            decreases n - i,
        {
            pairs.push(ParamPair {
                compute_weight: compute_weights[i],
                compute_grad: None,
                master_weight: master_weights[i],
                master_grad: 0u64,
            });
            i = i + 1;
        }
        ParamSet { pairs }
    }

    pub fn len(&self) -> (r: usize)
        ensures
            r == self@.len(),
    {
        self.pairs.len()
    }

    /// Clears every compute gradient before a step's backward pass: compute
    /// gradients are write-once per step, never accumulated across steps.
    pub fn zero_compute_gradients(&mut self)
        ensures
            final(self)@.len() == old(self)@.len(),
            forall|i: int| 0 <= i < old(self)@.len() ==> final(self)@[i] == (ParamPair {
                compute_grad: None,
                ..old(self)@[i]
            }),
    {
        let n = self.pairs.len();
        let mut i: usize = 0;
        while i < n
            invariant
                i <= n,
                n == self.pairs@.len(),
                n == old(self).pairs@.len(),
                forall|j: int| 0 <= j < i ==> self.pairs@[j] == (ParamPair {
                    compute_grad: None,
                    ..old(self).pairs@[j]
                }),
                forall|j: int| i <= j < n ==> self.pairs@[j] == old(self).pairs@[j],
            decreases n - i,
        {
            let p = self.pairs[i];
            self.pairs[i] = ParamPair { compute_grad: None, ..p };
            i = i + 1;
        }
    }

    /// Records the backward pass's products: each parameter the pass
    /// touched receives its reported gradient; the rest keep theirs.
    pub fn apply_backward(&mut self, grads: &Vec<Option<ComputeGrad>>)
        requires
            grads@.len() == old(self)@.len(),
        ensures
            final(self)@.len() == old(self)@.len(),
            forall|i: int| 0 <= i < old(self)@.len() ==> final(self)@[i] == (ParamPair {
                compute_grad: if grads@[i] is Some {
                    grads@[i]
                } else {
                    old(self)@[i].compute_grad
                },
                ..old(self)@[i]
            }),
    {
        let n = self.pairs.len();
        let mut i: usize = 0;
        while i < n
            invariant
                i <= n,
                n == self.pairs@.len(),
                n == old(self).pairs@.len(),
                n == grads@.len(),
                forall|j: int| 0 <= j < i ==> self.pairs@[j] == (ParamPair {
                    compute_grad: if grads@[j] is Some {
                        grads@[j]
                    } else {
                        old(self).pairs@[j].compute_grad
                    },
                    ..old(self).pairs@[j]
                }),
                forall|j: int| i <= j < n ==> self.pairs@[j] == old(self).pairs@[j],
            decreases n - i,
        {
            let p = self.pairs[i];
            match grads[i] {
                Some(g) => {
                    self.pairs[i] = ParamPair { compute_grad: Some(g), ..p };
                },
                None => {},
            }
            i = i + 1;
        }
    }

    /// Scans the compute gradients for a NaN or infinity report, stopping
    /// at the first offender: one bad gradient already rejects the whole
    /// step.
    pub fn scan_for_overflow(&self) -> (r: bool)
        ensures
            r == has_overflow(self@),
    {
        let n = self.pairs.len();
        let mut i: usize = 0;
        while i < n
            invariant
                i <= n,
                n == self.pairs@.len(),
                forall|j: int| 0 <= j < i ==> !grad_overflowed(self@[j]),
            decreases n - i,
        {
            let p = self.pairs[i];
            match p.compute_grad {
                Some(g) => {
                    if g.overflow {
                        proof {
                            assert(grad_overflowed(self@[i as int]));
                        }
                        return true;
                    }
                },
                None => {},
            }
            i = i + 1;
        }
        false
    }

    /// For each pair with a defined compute gradient, overwrites (never
    /// accumulates into) the master gradient with the widened compute
    /// gradient; pairs without a gradient this step keep their master
    /// gradient. Nothing else changes.
    pub fn upcast_gradients_into_master(&mut self)
        ensures
            final(self)@.len() == old(self)@.len(),
            forall|i: int| 0 <= i < old(self)@.len() ==> final(self)@[i] == (ParamPair {
                master_grad: match old(self)@[i].compute_grad {
                    Some(g) => spec_upcast(g.bits),
                    None => old(self)@[i].master_grad,
                },
                ..old(self)@[i]
            }),
    {
        let n = self.pairs.len();
        let mut i: usize = 0;
        while i < n
            invariant
                i <= n,
                n == self.pairs@.len(),
                n == old(self).pairs@.len(),
                forall|j: int| 0 <= j < i ==> self.pairs@[j] == (ParamPair {
                    master_grad: match old(self).pairs@[j].compute_grad {
                        Some(g) => spec_upcast(g.bits),
                        None => old(self).pairs@[j].master_grad,
                    },
                    ..old(self).pairs@[j]
                }),
                forall|j: int| i <= j < n ==> self.pairs@[j] == old(self).pairs@[j],
            decreases n - i,
        {
            let p = self.pairs[i];
            match p.compute_grad {
                Some(g) => {
                    self.pairs[i] = ParamPair { master_grad: upcast(g.bits), ..p };
                },
                None => {},
            }
            i = i + 1;
        }
    }

    /// Installs the update rule's products: every master weight is
    /// overwritten with the corresponding updated value; gradients and
    /// compute weights are untouched.
    pub fn apply_master_update(&mut self, updated: &Vec<u64>)
        requires
            updated@.len() == old(self)@.len(),
        ensures
            final(self)@.len() == old(self)@.len(),
            forall|i: int| 0 <= i < old(self)@.len() ==> final(self)@[i] == (ParamPair {
                master_weight: updated@[i],
                ..old(self)@[i]
            }),
    {
        let n = self.pairs.len();
        let mut i: usize = 0;
        while i < n
            invariant
                i <= n,
                n == self.pairs@.len(),
                n == old(self).pairs@.len(),
                n == updated@.len(),
                forall|j: int| 0 <= j < i ==> self.pairs@[j] == (ParamPair {
                    master_weight: updated@[j],
                    ..old(self).pairs@[j]
                }),
                forall|j: int| i <= j < n ==> self.pairs@[j] == old(self).pairs@[j],
            decreases n - i,
        {
            let p = self.pairs[i];
            self.pairs[i] = ParamPair { master_weight: updated[i], ..p };
            i = i + 1;
        }
    }

    /// Overwrites every compute weight with the narrowing cast of its
    /// (possibly just-updated) master weight, so the compute copy again
    /// reflects the latest committed master state.
    pub fn downcast_weights_into_compute(&mut self)
        ensures
            final(self)@.len() == old(self)@.len(),
            forall|i: int| 0 <= i < old(self)@.len() ==> final(self)@[i] == (ParamPair {
                compute_weight: spec_downcast(old(self)@[i].master_weight),
                ..old(self)@[i]
            }),
            synced(final(self)@),
    {
        let n = self.pairs.len();
        let mut i: usize = 0;
        while i < n
            invariant
                i <= n,
                n == self.pairs@.len(),
                n == old(self).pairs@.len(),
                forall|j: int| 0 <= j < i ==> self.pairs@[j] == (ParamPair {
                    compute_weight: spec_downcast(old(self).pairs@[j].master_weight),
                    ..old(self).pairs@[j]
                }),
                forall|j: int| i <= j < n ==> self.pairs@[j] == old(self).pairs@[j],
            decreases n - i,
        {
            let p = self.pairs[i];
            self.pairs[i] = ParamPair { compute_weight: downcast(p.master_weight), ..p };
            i = i + 1;
        }
    }
}

} // verus!
