use servo_by_light::servo::{
    curtain_pwm, sweep_pwm, us_to_pwm, PwmConfig, Sweep, CENTER_US, HOLD_CYCLES, LEFT_US,
    PWM_CLOCK_HZ, RIGHT_US,
};

#[test]
fn compare_value_is_the_pulse_width() {
    for us in 0..=u16::MAX {
        assert_eq!(us_to_pwm(us), us);
    }
}

#[test]
fn pulse_widths_of_the_positions() {
    assert_eq!(LEFT_US, 1000);
    assert_eq!(CENTER_US, 1500);
    assert_eq!(RIGHT_US, 2000);
}

#[test]
fn pwm_settings() {
    assert_eq!(
        curtain_pwm(),
        PwmConfig { phase_correct: false, div_int: 125, div_frac: 0, top: 19_999 }
    );
    assert_eq!(
        sweep_pwm(),
        PwmConfig { phase_correct: false, div_int: 125, div_frac: 0, top: 20_000 }
    );
    assert_eq!(HOLD_CYCLES, 125_000_000);
}

#[test]
fn curtain_signal_has_fifty_periods_a_second() {
    let config = curtain_pwm();
    let cycles = config.div_int as u32 * (config.top as u32 + 1);
    assert_eq!(PWM_CLOCK_HZ / cycles, 50);
    assert_eq!(PWM_CLOCK_HZ % cycles, 0);
}

#[test]
fn sweep_reaches_the_top_in_a_fiftieth_of_a_second() {
    let config = sweep_pwm();
    assert_eq!(50 * config.div_int as u32 * config.top as u32, PWM_CLOCK_HZ);
}

#[test]
fn one_count_is_a_microsecond() {
    assert_eq!(PWM_CLOCK_HZ / curtain_pwm().div_int as u32, 1_000_000);
    assert_eq!(PWM_CLOCK_HZ / sweep_pwm().div_int as u32, 1_000_000);
}

#[test]
fn sweep_goes_left_center_right_center() {
    let mut sweep = Sweep::new();
    for _ in 0..3 {
        assert_eq!(sweep.advance(), 1000);
        assert_eq!(sweep.advance(), 1500);
        assert_eq!(sweep.advance(), 2000);
        assert_eq!(sweep.advance(), 1500);
    }
}

#[test]
fn sweep_never_jumps() {
    let mut sweep = Sweep::new();
    let mut last = sweep.advance();
    for _ in 0..20 {
        let next = sweep.advance();
        assert_eq!(next.abs_diff(last), 500);
        last = next;
    }
}
