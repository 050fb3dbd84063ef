//! Control logic of a swept bandpass effect: the fan-speed switch and its
//! rate table, the sample clock of the rate smoother, and the per-block plan
//! that tells the signal path whether to filter or to pass audio through.

mod control;
mod ramp;
mod speed;

pub use control::{BlockPlan, RateControl, RateState};
pub use ramp::{ramp_steps, Ramp, RampStep, RAMP_MS};
pub use speed::{FanSpeed, FAST_FREQ, MEDIUM_FREQ, SLOW_FREQ};
