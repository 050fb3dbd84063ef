use vstd::prelude::*;

verus! {

/// Length of a rate change, in milliseconds.
pub const RAMP_MS: u32 = 20;

/// Number of samples in a ramp of `ms` milliseconds at `sample_rate` Hz,
/// rounded to the nearest sample, halves up.
pub open spec fn ramp_len(sample_rate: nat, ms: nat) -> nat {
    (sample_rate * ms + 500) / 1000
}

/// What one sample of the smoother does with its value.
#[derive(Clone, Copy, Debug, PartialEq, Eq, Structural)]
pub enum RampStep {
    /// No ramp is running: the value stays at the target.
    Hold,
    /// The ramp goes on: the value moves one increment toward the target.
    Step,
    /// Last sample of the ramp: the value is set to the target exactly.
    Arrive,
}

/// One sample of the clock: the step taken and the samples left after it.
pub open spec fn tick(n: nat) -> (RampStep, nat) {
    if n == 0 {
        (RampStep::Hold, 0)
    } else if n == 1 {
        (RampStep::Arrive, 0)
    } else {
        (RampStep::Step, (n - 1) as nat)
    }
}

/// Samples left after `k` ticks from `n` left.
pub open spec fn left_after(n: nat, k: nat) -> nat
    decreases k,
{
    if k == 0 {
        n
    } else {
        tick(left_after(n, (k - 1) as nat)).1
    }
}

/// The step taken at tick `k` (counted from zero) of a clock with `n` left.
pub open spec fn step_at(n: nat, k: nat) -> RampStep {
    tick(left_after(n, k)).0
}

/// Number of samples in a ramp of `ms` milliseconds at `sample_rate` Hz.
pub fn ramp_steps(sample_rate: u32, ms: u32) -> (r: u64)
    ensures
        r == ramp_len(sample_rate as nat, ms as nat),
{
    let a: u64 = sample_rate as u64;
    let b: u64 = ms as u64;
    assert(a * b <= 0xffff_ffffu64 * 0xffff_ffffu64) by (nonlinear_arith)
        requires
            a <= 0xffff_ffffu64,
            b <= 0xffff_ffffu64,
    ;
    let product: u64 = a * b;
    (product + 500) / 1000
}

/// The sample clock of the linear rate smoother: how many samples of the
/// current ramp are still to come.
pub struct Ramp {
    steps_left: u64,
}

impl Ramp {
    /// Samples of the running ramp still to come; zero when none runs.
    pub closed spec fn remaining(self) -> nat {
        self.steps_left as nat
    }

    /// A clock with no ramp running.
    pub fn new() -> (r: Ramp)
        ensures
            r.remaining() == 0,
    {
        Ramp { steps_left: 0 }
    }

    /// Begins a ramp of `steps` samples, dropping any ramp under way.
    pub fn start(&mut self, steps: u64)
        ensures
            final(self).remaining() == steps,
    {
        self.steps_left = steps;
    }

    /// Ends any ramp at once: the value is to be set straight to its target.
    pub fn settle(&mut self)
        ensures
            final(self).remaining() == 0,
    {
        self.steps_left = 0;
    }

    /// Whether a ramp is under way.
    pub fn is_active(&self) -> (r: bool)
        ensures
            r == (self.remaining() > 0),
    {
        self.steps_left > 0
    }

    /// Samples of the running ramp still to come.
    pub fn steps_left(&self) -> (r: u64)
        ensures
            r == self.remaining(),
    {
        self.steps_left
    }

    /// Advances the clock by one sample and says what the value does.
    pub fn advance(&mut self) -> (r: RampStep)
        ensures
            (r, final(self).remaining()) == tick(old(self).remaining()),
    {
        if self.steps_left == 0 {
            RampStep::Hold
        } else if self.steps_left == 1 {
            self.steps_left = 0;
            RampStep::Arrive
        } else {
            self.steps_left = self.steps_left - 1;
            RampStep::Step
        }
    }
}

impl Default for Ramp {
    fn default() -> (r: Ramp)
        ensures
            r.remaining() == 0,
    {
        Ramp::new()
    }
}

proof fn lemma_left_after_counts_down(n: nat, k: nat)
    ensures
        left_after(n, k) == if k <= n { (n - k) as nat } else { 0 },
    decreases k,
{
    if k > 0 {
        lemma_left_after_counts_down(n, (k - 1) as nat);
    }
}

/// A ramp started with `n` samples reaches its target on time: the first
/// `n - 1` ticks step toward the target, tick `n - 1` lands on it, and every
/// later tick holds it. Zero ticks leave the clock as it was.
pub proof fn lemma_ramp_arrives(n: nat, k: nat)
    ensures
        left_after(n, 0) == n,
        k + 1 < n ==> step_at(n, k) == RampStep::Step,
        n > 0 ==> step_at(n, (n - 1) as nat) == RampStep::Arrive,
        k >= n ==> step_at(n, k) == RampStep::Hold,
        left_after(n, n) == 0,
{
    lemma_left_after_counts_down(n, k);
    lemma_left_after_counts_down(n, n);
    if n > 0 {
        lemma_left_after_counts_down(n, (n - 1) as nat);
    }
}

} // verus!
