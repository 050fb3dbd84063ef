use vstd::prelude::*;

verus! {

/// LFO rate of the fast setting, in Hz.
pub const FAST_FREQ: u32 = 35;

/// LFO rate of the medium setting, in Hz.
pub const MEDIUM_FREQ: u32 = 20;

/// LFO rate of the slow setting, in Hz.
pub const SLOW_FREQ: u32 = 5;

/// The four positions of the fan switch. `Off` bypasses the filter.
#[derive(Clone, Copy, Debug, PartialEq, Eq, Structural)]
pub enum FanSpeed {
    Off,
    Fast,
    Medium,
    Slow,
}

/// The successor on the ring Off -> Fast -> Medium -> Slow -> Off.
pub open spec fn next_speed(s: FanSpeed) -> FanSpeed {
    match s {
        FanSpeed::Off => FanSpeed::Fast,
        FanSpeed::Fast => FanSpeed::Medium,
        FanSpeed::Medium => FanSpeed::Slow,
        FanSpeed::Slow => FanSpeed::Off,
    }
}

/// `next_speed` applied `k` times.
pub open spec fn cycle_n(s: FanSpeed, k: nat) -> FanSpeed
    decreases k,
{
    if k == 0 {
        s
    } else {
        next_speed(cycle_n(s, (k - 1) as nat))
    }
}

/// The LFO rate of a setting in Hz; `Off` has none.
pub open spec fn speed_freq(s: FanSpeed) -> Option<u32> {
    match s {
        FanSpeed::Off => None,
        FanSpeed::Fast => Some(FAST_FREQ),
        FanSpeed::Medium => Some(MEDIUM_FREQ),
        FanSpeed::Slow => Some(SLOW_FREQ),
    }
}

impl FanSpeed {
    /// The setting that a click on the fan switches to.
    pub fn cycle(&self) -> (r: FanSpeed)
        ensures
            r == next_speed(*self),
    {
        match self {
            FanSpeed::Off => FanSpeed::Fast,
            FanSpeed::Fast => FanSpeed::Medium,
            FanSpeed::Medium => FanSpeed::Slow,
            FanSpeed::Slow => FanSpeed::Off,
        }
    }

    /// The LFO rate in Hz, or `Err(())` for `Off`.
    pub fn to_freq(&self) -> (r: Result<u32, ()>)
        ensures
            r == match speed_freq(*self) {
                Some(f) => Ok::<u32, ()>(f),
                None => Err::<u32, ()>(()),
            },
    {
        match self {
            FanSpeed::Fast => Ok(FAST_FREQ),
            FanSpeed::Medium => Ok(MEDIUM_FREQ),
            FanSpeed::Slow => Ok(SLOW_FREQ),
            FanSpeed::Off => Err(()),
        }
    }
}

impl Default for FanSpeed {
    fn default() -> (r: FanSpeed)
        ensures
            r == FanSpeed::Off,
    {
        FanSpeed::Off
    }
}

/// Cycling has period four: four clicks bring every setting back, and one,
/// two or three clicks never do.
pub proof fn lemma_cycle_period(s: FanSpeed)
    ensures
        cycle_n(s, 4) == s,
        cycle_n(s, 1) != s,
        cycle_n(s, 2) != s,
        cycle_n(s, 3) != s,
{
    reveal_with_fuel(cycle_n, 5);
}

/// The rate after a click follows the fixed table: the setting after `Off`
/// runs at 35 Hz, after `Fast` at 20 Hz, after `Medium` at 5 Hz, and the one
/// after `Slow` is `Off`, which has no rate.
pub proof fn lemma_cycle_rate(s: FanSpeed)
    ensures
        speed_freq(next_speed(s)) == match s {
            FanSpeed::Off => Some(35u32),
            FanSpeed::Fast => Some(20u32),
            FanSpeed::Medium => Some(5u32),
            FanSpeed::Slow => None::<u32>,
        },
{
}

} // verus!
