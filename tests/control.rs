use blade::{
    ramp_steps, BlockPlan, FanSpeed, Ramp, RampStep, RateControl, FAST_FREQ, MEDIUM_FREQ,
    RAMP_MS, SLOW_FREQ,
};

#[test]
fn cycle_follows_the_ring() {
    assert_eq!(FanSpeed::Off.cycle(), FanSpeed::Fast);
    assert_eq!(FanSpeed::Fast.cycle(), FanSpeed::Medium);
    assert_eq!(FanSpeed::Medium.cycle(), FanSpeed::Slow);
    assert_eq!(FanSpeed::Slow.cycle(), FanSpeed::Off);
}

#[test]
fn cycle_has_period_four() {
    for s in [FanSpeed::Off, FanSpeed::Fast, FanSpeed::Medium, FanSpeed::Slow] {
        let mut t = s;
        for k in 1..=4 {
            t = t.cycle();
            assert_eq!(t == s, k == 4);
        }
    }
}

#[test]
fn rate_table() {
    assert_eq!(FanSpeed::Fast.to_freq(), Ok(35));
    assert_eq!(FanSpeed::Medium.to_freq(), Ok(20));
    assert_eq!(FanSpeed::Slow.to_freq(), Ok(5));
    assert_eq!(FanSpeed::Off.to_freq(), Err(()));
    assert_eq!((FAST_FREQ, MEDIUM_FREQ, SLOW_FREQ), (35, 20, 5));
}

#[test]
fn rate_after_a_click() {
    assert_eq!(FanSpeed::Off.cycle().to_freq(), Ok(35));
    assert_eq!(FanSpeed::Fast.cycle().to_freq(), Ok(20));
    assert_eq!(FanSpeed::Medium.cycle().to_freq(), Ok(5));
    assert_eq!(FanSpeed::Slow.cycle().to_freq(), Err(()));
}

#[test]
fn default_speed_is_off() {
    assert_eq!(FanSpeed::default(), FanSpeed::Off);
}

#[test]
fn ramp_lengths() {
    assert_eq!(RAMP_MS, 20);
    assert_eq!(ramp_steps(48000, RAMP_MS), 960);
    assert_eq!(ramp_steps(44100, RAMP_MS), 882);
    assert_eq!(ramp_steps(11025, RAMP_MS), 221);
    assert_eq!(ramp_steps(0, RAMP_MS), 0);
    assert_eq!(ramp_steps(u32::MAX, u32::MAX), 18446744065119617);
}

#[test]
fn ramp_counts_down_and_arrives() {
    let mut r = Ramp::new();
    assert!(!r.is_active());
    assert_eq!(r.advance(), RampStep::Hold);
    r.start(3);
    assert!(r.is_active());
    assert_eq!(r.steps_left(), 3);
    assert_eq!(r.advance(), RampStep::Step);
    assert_eq!(r.advance(), RampStep::Step);
    assert_eq!(r.advance(), RampStep::Arrive);
    assert_eq!(r.steps_left(), 0);
    assert_eq!(r.advance(), RampStep::Hold);
    r.start(5);
    r.settle();
    assert_eq!(r.advance(), RampStep::Hold);
    assert_eq!(Ramp::default().steps_left(), 0);
}

#[test]
fn full_ramp_arrives_after_its_length() {
    let n = ramp_steps(48000, RAMP_MS);
    let mut r = Ramp::new();
    r.start(n);
    for _ in 0..n - 1 {
        assert_eq!(r.advance(), RampStep::Step);
    }
    assert_eq!(r.advance(), RampStep::Arrive);
    assert_eq!(r.advance(), RampStep::Hold);
}

#[test]
fn first_block_starts_a_ramp() {
    let mut c = RateControl::new();
    assert_eq!((c.target(), c.steps_left()), (0, 0));
    let p = c.begin_block(FanSpeed::Slow, 48000);
    assert_eq!(p, BlockPlan { filter_engaged: true, new_ramp: true });
    assert_eq!((c.target(), c.steps_left()), (5, 960));
    assert_eq!(c.next_sample(), RampStep::Step);
    assert_eq!(c.steps_left(), 959);
}

#[test]
fn same_rate_keeps_the_ramp() {
    let mut c = RateControl::new();
    c.begin_block(FanSpeed::Fast, 48000);
    for _ in 0..100 {
        c.next_sample();
    }
    let p = c.begin_block(FanSpeed::Fast, 48000);
    assert_eq!(p, BlockPlan { filter_engaged: true, new_ramp: false });
    assert_eq!(c.steps_left(), 860);
}

#[test]
fn bypass_keeps_the_smoother_and_skips_the_filter() {
    let mut c = RateControl::new();
    c.begin_block(FanSpeed::Medium, 44100);
    for _ in 0..10 {
        c.next_sample();
    }
    let before = (c.target(), c.steps_left());
    let p = c.begin_block(FanSpeed::Off, 44100);
    assert_eq!(p, BlockPlan { filter_engaged: false, new_ramp: false });
    assert_eq!((c.target(), c.steps_left()), before);
    // the clock still runs while bypassed
    assert_eq!(c.next_sample(), RampStep::Step);
    let p = c.begin_block(FanSpeed::Medium, 44100);
    assert_eq!(p, BlockPlan { filter_engaged: true, new_ramp: false });
    assert_eq!((c.target(), c.steps_left()), (20, 882 - 11));
}

#[test]
fn change_of_setting_restarts_the_ramp() {
    let mut c = RateControl::new();
    c.begin_block(FanSpeed::Fast, 48000);
    c.next_sample();
    let p = c.begin_block(FanSpeed::Medium, 48000);
    assert!(p.new_ramp);
    assert_eq!((c.target(), c.steps_left()), (20, 960));
}

#[test]
fn reset_snaps_to_the_setting() {
    let mut c = RateControl::default();
    c.begin_block(FanSpeed::Fast, 48000);
    assert!(c.reset(FanSpeed::Slow));
    assert_eq!((c.target(), c.steps_left()), (5, 0));
    assert_eq!(c.next_sample(), RampStep::Hold);
    let p = c.begin_block(FanSpeed::Slow, 48000);
    assert!(!p.new_ramp);
}

#[test]
fn reset_while_off_keeps_the_state() {
    let mut c = RateControl::new();
    c.begin_block(FanSpeed::Fast, 48000);
    assert!(!c.reset(FanSpeed::Off));
    assert_eq!((c.target(), c.steps_left()), (35, 960));
}
