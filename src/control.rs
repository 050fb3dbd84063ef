use vstd::prelude::*;
use crate::ramp::{ramp_len, ramp_steps, tick, Ramp, RampStep, RAMP_MS};
use crate::speed::{speed_freq, FanSpeed};

verus! {

/// The abstract state of the rate control: the LFO rate that the smoother
/// heads for, in Hz, and the samples of its ramp still to come.
pub struct RateState {
    pub target: u32,
    pub left: nat,
}

/// What the signal path does for one block of audio.
#[derive(Clone, Copy, Debug, PartialEq, Eq, Structural)]
pub struct BlockPlan {
    /// Whether the filter runs; when it does not, audio passes through and
    /// the filter's history is left as it is.
    pub filter_engaged: bool,
    /// Whether a new ramp toward `target` begins with this block.
    pub new_ramp: bool,
}

/// The state after the start of a block at `speed` and `sample_rate` Hz.
pub open spec fn block_state(s: RateState, speed: FanSpeed, sample_rate: nat) -> RateState {
    match speed_freq(speed) {
        Some(f) => if f == s.target {
            s
        } else {
            RateState { target: f, left: ramp_len(sample_rate, RAMP_MS as nat) }
        },
        None => s,
    }
}

/// The plan of a block at `speed` begun in state `s`.
pub open spec fn block_plan(s: RateState, speed: FanSpeed) -> BlockPlan {
    BlockPlan {
        filter_engaged: speed != FanSpeed::Off,
        new_ramp: match speed_freq(speed) {
            Some(f) => f != s.target,
            None => false,
        },
    }
}

/// The state after a reset at `speed`: the smoother snaps to the setting's
/// rate; with the fan off it keeps what it had.
pub open spec fn reset_state(s: RateState, speed: FanSpeed) -> RateState {
    match speed_freq(speed) {
        Some(f) => RateState { target: f, left: 0 },
        None => s,
    }
}

/// The decisions of the processing core: which rate the LFO heads for, when
/// a ramp toward it begins, and whether the filter runs.
pub struct RateControl {
    target: u32,
    ramp: Ramp,
}

impl View for RateControl {
    type V = RateState;

    closed spec fn view(&self) -> RateState {
        RateState { target: self.target, left: self.ramp.remaining() }
    }
}

impl RateControl {
    /// A control that heads for 0 Hz with no ramp under way.
    pub fn new() -> (r: RateControl)
        ensures
            r@ == (RateState { target: 0, left: 0 }),
    {
        RateControl { target: 0, ramp: Ramp::new() }
    }

    /// The rate the smoother heads for, in Hz.
    pub fn target(&self) -> (r: u32)
        ensures
            r == self@.target,
    {
        self.target
    }

    /// Samples of the running ramp still to come.
    pub fn steps_left(&self) -> (r: u64)
        ensures
            r == self@.left,
    {
        self.ramp.steps_left()
    }

    /// Starts a block at `speed`: a setting with a new rate begins a ramp of
    /// `RAMP_MS` milliseconds toward it; `Off` and an unchanged rate keep the
    /// smoother as it is. The filter runs unless the fan is off.
    pub fn begin_block(&mut self, speed: FanSpeed, sample_rate: u32) -> (r: BlockPlan)
        ensures
            final(self)@ == block_state(old(self)@, speed, sample_rate as nat),
            r == block_plan(old(self)@, speed),
    {
        let engaged = speed != FanSpeed::Off;
        match speed.to_freq() {
            Ok(f) => {
                if f == self.target {
                    BlockPlan { filter_engaged: engaged, new_ramp: false }
                } else {
                    self.target = f;
                    self.ramp.start(ramp_steps(sample_rate, RAMP_MS));
                    BlockPlan { filter_engaged: engaged, new_ramp: true }
                }
            },
            Err(()) => BlockPlan { filter_engaged: engaged, new_ramp: false },
        }
    }

    /// Advances the smoother's clock by one sample. It is called for every
    /// sample, whether the filter runs or not, so that the LFO keeps its phase.
    pub fn next_sample(&mut self) -> (r: RampStep)
        ensures
            final(self)@.target == old(self)@.target,
            (r, final(self)@.left) == tick(old(self)@.left),
    {
        self.ramp.advance()
    }

    /// Snaps the smoother to the rate of `speed` with no ramp; returns whether
    /// it did, which it does unless the fan is off.
    pub fn reset(&mut self, speed: FanSpeed) -> (r: bool)
        ensures
            final(self)@ == reset_state(old(self)@, speed),
            r == (speed != FanSpeed::Off),
    {
        match speed.to_freq() {
            Ok(f) => {
                self.target = f;
                self.ramp.settle();
                true
            },
            Err(()) => false,
        }
    }
}

impl Default for RateControl {
    fn default() -> (r: RateControl)
        ensures
            r@ == (RateState { target: 0, left: 0 }),
    {
        RateControl::new()
    }
}

/// A block with the fan off changes nothing and runs no filter, so switching
/// off and back on to the same setting leaves the smoother exactly as if the
/// switch had stayed on, and starts no new ramp.
pub proof fn lemma_bypass_continuity(s: RateState, on: FanSpeed, sample_rate: nat)
    requires
        on != FanSpeed::Off,
    ensures
        block_state(s, FanSpeed::Off, sample_rate) == s,
        !block_plan(s, FanSpeed::Off).filter_engaged,
        !block_plan(s, FanSpeed::Off).new_ramp,
        ({
            let s1 = block_state(s, on, sample_rate);
            let s2 = block_state(s1, FanSpeed::Off, sample_rate);
            &&& block_state(s2, on, sample_rate) == block_state(s1, on, sample_rate)
            &&& block_state(s1, on, sample_rate) == s1
            &&& block_plan(s2, on) == (BlockPlan { filter_engaged: true, new_ramp: false })
        }),
{
}

/// A reset forgets any ramp: for a setting that is not off, the state after
/// a reset depends on the setting alone.
pub proof fn lemma_reset_forgets(s: RateState, t: RateState, speed: FanSpeed)
    requires
        speed != FanSpeed::Off,
    ensures
        reset_state(s, speed) == reset_state(t, speed),
        reset_state(s, speed).left == 0,
{
}

} // verus!
