//! Gradient accumulation: when the training loop optimizes, and with which gradients.
use vstd::prelude::*;
use vstd::arithmetic::div_mod::{
    lemma_fundamental_div_mod, lemma_fundamental_div_mod_converse, lemma_mod_pos_bound,
};

verus! {

/// What the training loop does with the gradients of one step.
#[derive(PartialEq, Eq, Structural, Clone, Copy)]
pub enum OptimizerAction {
    /// No accumulation: optimize with these gradients at once.
    Step,
    /// Add the gradients to the accumulator and go on.
    Accumulate,
    /// Add the gradients to the accumulator, then optimize with the combined
    /// gradients, which empties the accumulator.
    AccumulateAndStep,
}

/// One transition of gradient accumulation, from the number of gradients already
/// accumulated: the new number and the action.
pub open spec fn accumulation_transition(accumulation: Option<usize>, current: nat) -> (nat, OptimizerAction) {
    match accumulation {
        None => (current, OptimizerAction::Step),
        Some(k) => if k <= current + 1 {
            (0, OptimizerAction::AccumulateAndStep)
        } else {
            ((current + 1) as nat, OptimizerAction::Accumulate)
        },
    }
}

/// The state after `n` gradients, starting from an empty accumulator: the number of
/// gradients accumulated and the number of optimizer steps taken.
pub open spec fn accumulation_after(accumulation: Option<usize>, n: nat) -> (nat, nat)
    decreases n,
{
    if n == 0 {
        (0, 0)
    } else {
        let (current, steps) = accumulation_after(accumulation, (n - 1) as nat);
        let (next, action) = accumulation_transition(accumulation, current);
        (next, if action == OptimizerAction::Accumulate { steps } else { steps + 1 })
    }
}

/// The gradient accumulation of a training epoch: with `Some(k)`, the optimizer
/// steps once every `k` gradients (every gradient when `k` is 0); with `None`, it
/// steps on every gradient without accumulating.
pub struct GradientAccumulation {
    accumulation: Option<usize>,
    current: usize,
}

impl GradientAccumulation {
    #[verifier::type_invariant]
    spec fn well_formed(self) -> bool {
        self.current == 0 || (self.accumulation matches Some(k) && self.current < k)
    }

    /// The configured number of gradients per optimizer step.
    pub closed spec fn accumulation(self) -> Option<usize> {
        self.accumulation
    }

    /// The number of gradients accumulated since the last optimizer step.
    pub closed spec fn current(self) -> nat {
        self.current as nat
    }

    /// An empty accumulator for `accumulation` gradients per step.
    pub fn new(accumulation: Option<usize>) -> (r: Self)
        ensures
            r.accumulation() == accumulation,
            r.current() == 0,
    {
        GradientAccumulation { accumulation, current: 0 }
    }

    /// The number of gradients accumulated since the last optimizer step.
    pub fn accumulated(&self) -> (r: usize)
        ensures
            r == self.current(),
    {
        self.current
    }

    /// Decides what to do with the gradients of one more step.
    pub fn on_gradients(&mut self) -> (r: OptimizerAction)
        ensures
            (final(self).current(), r) == accumulation_transition(
                old(self).accumulation(),
                old(self).current(),
            ),
            final(self).accumulation() == old(self).accumulation(),
    {
        proof {
            use_type_invariant(&*self);
        }
        match self.accumulation {
            None => OptimizerAction::Step,
            Some(k) => {
                let next = self.current + 1;
                if k <= next {
                    self.current = 0;
                    OptimizerAction::AccumulateAndStep
                } else {
                    self.current = next;
                    OptimizerAction::Accumulate
                }
            },
        }
    }
}

/// With accumulation over `k >= 1` gradients, after `n` gradients the optimizer has
/// stepped `n / k` times and `n % k` gradients wait in the accumulator.
pub proof fn lemma_accumulation_counts(k: usize, n: nat)
    requires
        k >= 1,
    ensures
        accumulation_after(Some(k), n) == ((n % (k as nat)) as nat, n / (k as nat)),
    decreases n,
{
    let kk = k as int;
    if n == 0 {
        lemma_fundamental_div_mod_converse(0, kk, 0, 0);
    } else {
        lemma_accumulation_counts(k, (n - 1) as nat);
        let m = (n - 1) as int;
        let q = m / kk;
        let r = m % kk;
        lemma_fundamental_div_mod(m, kk);
        lemma_mod_pos_bound(m, kk);
        if r + 1 == kk {
            assert(n == (q + 1) * kk + 0) by (nonlinear_arith)
                requires m == kk * q + r, r + 1 == kk, n == m + 1;
            lemma_fundamental_div_mod_converse(n as int, kk, q + 1, 0);
        } else {
            assert(n == q * kk + (r + 1)) by (nonlinear_arith)
                requires m == kk * q + r, n == m + 1;
            lemma_fundamental_div_mod_converse(n as int, kk, q, r + 1);
        }
    }
}

/// Accumulating over 0 gradients behaves as accumulating over 1: every gradient steps.
/// Without accumulation every gradient steps too, and nothing is kept.
pub proof fn lemma_accumulation_every_step(n: nat)
    ensures
        accumulation_after(Some(0), n) == (0nat, n),
        accumulation_after(Some(1), n) == (0nat, n),
        accumulation_after(None, n) == (0nat, n),
    decreases n,
{
    if n > 0 {
        lemma_accumulation_every_step((n - 1) as nat);
    }
}

} // verus!
