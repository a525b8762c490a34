//! Dynamic loss-scale control.
//!
//! The loss scale is held as its base-two exponent, so every adjustment is
//! an exact halving or doubling and the scale is a power-of-two multiple of
//! its initial value by construction. An overflow halves the scale at once;
//! a configured number of consecutive overflow-free committed steps doubles
//! it. No lower bound is enforced on the scale: sustained overflow keeps
//! halving it without a floor.

use vstd::prelude::*;
use vstd::arithmetic::power2::{
    lemma2_to64, lemma2_to64_rest, lemma_pow2_adds, lemma_pow2_strictly_increases,
    lemma_pow2_unfold, pow2,
};

verus! {

/// Mathematical model of the loss-scale controller: the scale is exactly
/// two to the power `exp`; `successes` counts committed steps since the
/// last scale change; after `interval` consecutive successes the scale
/// doubles.
pub struct ScaleModel {
    pub exp: int,
    pub successes: nat,
    pub interval: nat,
}

impl ScaleModel {
    /// The interval is positive and the success count stays below it.
    pub open spec fn wf(self) -> bool {
        &&& self.interval >= 1
        &&& self.successes < self.interval
    }
}

/// Effect of a detected gradient overflow: halve the scale and reset the
/// run of successes.
pub open spec fn model_overflow(m: ScaleModel) -> ScaleModel {
    ScaleModel { exp: m.exp - 1, successes: 0, interval: m.interval }
}

/// Effect of a committed step: one more success; once the run reaches the
/// interval, the scale doubles and the run restarts.
pub open spec fn model_success(m: ScaleModel) -> ScaleModel {
    if m.successes + 1 >= m.interval {
        ScaleModel { exp: m.exp + 1, successes: 0, interval: m.interval }
    } else {
        ScaleModel { exp: m.exp, successes: m.successes + 1, interval: m.interval }
    }
}

/// Controller state after a sequence of step events, oldest first:
/// `true` records an overflow, `false` a committed step.
pub open spec fn model_after(m: ScaleModel, events: Seq<bool>) -> ScaleModel
    decreases events.len(),
{
    if events.len() == 0 {
        m
    } else {
        let prev = model_after(m, events.drop_last());
        if events.last() {
            model_overflow(prev)
        } else {
            model_success(prev)
        }
    }
}

/// Controller state after `n` consecutive committed steps.
pub open spec fn model_successes(m: ScaleModel, n: nat) -> ScaleModel
    decreases n,
{
    if n == 0 {
        m
    } else {
        model_success(model_successes(m, (n - 1) as nat))
    }
}

/// Numerator of the exact scale value 2^e written as a rational number.
pub open spec fn scale_num(e: int) -> nat {
    if e >= 0 {
        pow2(e as nat)
    } else {
        1
    }
}

/// Denominator of the exact scale value 2^e written as a rational number.
pub open spec fn scale_den(e: int) -> nat {
    if e >= 0 {
        1
    } else {
        pow2((-e) as nat)
    }
}

/// For exponents `lo <= hi`, the scale at `hi` equals the scale at `lo`
/// times 2^(hi - lo), as a cross-multiplied rational identity.
proof fn lemma_scale_ratio_le(lo: int, hi: int)
    requires
        lo <= hi,
    ensures
        scale_num(hi) * scale_den(lo) == scale_num(lo) * scale_den(hi) * pow2((hi - lo) as nat),
{
    let p = pow2((hi - lo) as nat);
    if lo >= 0 {
        lemma_pow2_adds(lo as nat, (hi - lo) as nat);
        assert(pow2(hi as nat) == pow2(lo as nat) * p);
        assert(scale_num(hi) == pow2(hi as nat));
        assert(scale_den(lo) == 1);
        assert(scale_num(hi) * scale_den(lo) == pow2(hi as nat));
        assert(scale_num(lo) * scale_den(hi) == pow2(lo as nat));
        assert(scale_num(lo) * scale_den(hi) * p == pow2(lo as nat) * p);
    } else if hi >= 0 {
        lemma_pow2_adds(hi as nat, (-lo) as nat);
        assert(p == pow2(hi as nat) * pow2((-lo) as nat));
        assert(scale_num(hi) * scale_den(lo) == pow2(hi as nat) * pow2((-lo) as nat));
        assert(scale_num(lo) * scale_den(hi) == 1);
        assert(scale_num(lo) * scale_den(hi) * p == p);
    } else {
        lemma_pow2_adds((-hi) as nat, (hi - lo) as nat);
        assert(pow2((-lo) as nat) == pow2((-hi) as nat) * p);
        assert(scale_num(hi) * scale_den(lo) == pow2((-lo) as nat));
        assert(scale_num(lo) * scale_den(hi) == pow2((-hi) as nat));
        assert(scale_num(lo) * scale_den(hi) * p == pow2((-hi) as nat) * p);
    }
}

/// Every reachable scale is the initial scale times an integral power of
/// two. After any sequence of overflow and committed-step events, writing
/// each scale as the exact rational `scale_num / scale_den` and putting
/// `k` for the change of exponent, the final scale equals the initial
/// scale times 2^k when `k >= 0`, and the final scale times 2^(-k) equals
/// the initial scale when `k < 0` (both equalities cross-multiplied).
pub proof fn lemma_scale_power_of_two(m: ScaleModel, events: Seq<bool>)
    ensures
        ({
            let e = model_after(m, events).exp;
            &&& (e >= m.exp ==> scale_num(e) * scale_den(m.exp) == scale_num(m.exp)
                * scale_den(e) * pow2((e - m.exp) as nat))
            &&& (e < m.exp ==> scale_num(e) * scale_den(m.exp) * pow2((m.exp - e) as nat)
                == scale_num(m.exp) * scale_den(e))
        }),
{
    let e = model_after(m, events).exp;
    if e >= m.exp {
        lemma_scale_ratio_le(m.exp, e);
    } else {
        lemma_scale_ratio_le(e, m.exp);
    }
}

/// No event changes the configured interval, and well-formedness is
/// preserved by every sequence of events.
pub proof fn lemma_model_after_wf(m: ScaleModel, events: Seq<bool>)
    requires
        m.wf(),
    ensures
        model_after(m, events).wf(),
        model_after(m, events).interval == m.interval,
    decreases events.len(),
{
    if events.len() > 0 {
        lemma_model_after_wf(m, events.drop_last());
    }
}

/// Starting from a fresh run of successes, fewer than `interval` committed
/// steps leave the scale alone and only lengthen the run; exactly
/// `interval` committed steps double the scale and reset the run.
pub proof fn lemma_interval_successes_double(m: ScaleModel, n: nat)
    requires
        m.wf(),
        m.successes == 0,
        n <= m.interval,
    ensures
        n < m.interval ==> model_successes(m, n) == (ScaleModel {
            exp: m.exp,
            successes: n,
            interval: m.interval,
        }),
        n == m.interval ==> model_successes(m, n) == (ScaleModel {
            exp: m.exp + 1,
            successes: 0,
            interval: m.interval,
        }),
    decreases n,
{
    if n > 0 {
        lemma_interval_successes_double(m, (n - 1) as nat);
    }
}

/// Loss-scale controller state. The scale is two to the power `scale_log2`.
pub struct ScaleState {
    /// Base-two logarithm of the current loss scale.
    pub scale_log2: i32,
    /// Committed steps since the last scale adjustment.
    pub consecutive_successes: usize,
    /// Number of consecutive committed steps after which the scale doubles.
    pub update_interval: usize,
}

impl View for ScaleState {
    type V = ScaleModel;

    open spec fn view(&self) -> ScaleModel {
        ScaleModel {
            exp: self.scale_log2 as int,
            successes: self.consecutive_successes as nat,
            interval: self.update_interval as nat,
        }
    }
}

impl ScaleState {
    pub open spec fn wf(self) -> bool {
        self@.wf()
    }

    pub fn new(scale_log2: i32, update_interval: usize) -> (r: ScaleState)
        requires
            update_interval >= 1,
        ensures
            r.wf(),
            r@ == (ScaleModel {
                exp: scale_log2 as int,
                successes: 0,
                interval: update_interval as nat,
            }),
    {
        ScaleState { scale_log2, consecutive_successes: 0, update_interval }
    }

    /// A detected gradient overflow halves the scale and resets the run of
    /// successes.
    pub fn on_overflow(&mut self)
        requires
            old(self).wf(),
            old(self).scale_log2 > i32::MIN,
        ensures
            final(self).wf(),
            final(self)@ == model_overflow(old(self)@),
    {
        self.scale_log2 = self.scale_log2 - 1;
        self.consecutive_successes = 0;
    }

    /// A committed step counts one success; after `update_interval`
    /// consecutive successes the scale doubles and the count restarts.
    pub fn on_success(&mut self)
        requires
            old(self).wf(),
            old(self)@.successes + 1 >= old(self)@.interval ==> old(self).scale_log2 < i32::MAX,
        ensures
            final(self).wf(),
            final(self)@ == model_success(old(self)@),
    {
        self.consecutive_successes = self.consecutive_successes + 1;
        if self.update_interval <= self.consecutive_successes {
            self.scale_log2 = self.scale_log2 + 1;
            self.consecutive_successes = 0;
        }
    }

    /// The scale as an integer, for exponents that fit a 64-bit word.
    pub fn scale_value(&self) -> (r: u64)
        requires
            0 <= self.scale_log2 < 64,
        ensures
            r == pow2(self@.exp as nat),
    {
        proof {
            lemma2_to64();
        }
        let mut acc: u64 = 1;
        let mut i: i32 = 0;
        while i < self.scale_log2
            invariant
                0 <= i <= self.scale_log2 < 64,
                acc == pow2(i as nat),
            decreases self.scale_log2 - i,
        {
            proof {
                lemma_pow2_unfold((i + 1) as nat);
                lemma_pow2_strictly_increases((i + 1) as nat, 64);
                lemma2_to64_rest();
            }
            acc = acc * 2;
            i = i + 1;
        }
        acc
    }
}

} // verus!
