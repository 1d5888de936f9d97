//! The servo: the pulses that drive it, and the sweep through its positions.

use vstd::prelude::*;

verus! {

/// Pulse width that turns the servo left, in microseconds.
pub const LEFT_US: u16 = 1000;

/// Pulse width at which the servo stands still, in microseconds.
pub const CENTER_US: u16 = 1500;

/// Pulse width that turns the servo right, in microseconds.
pub const RIGHT_US: u16 = 2000;

/// Compare value that cuts the signal.
pub const OFF: u16 = 0;

/// Frequency of the clock that the PWM settings are made for, in hertz.
pub const PWM_CLOCK_HZ: u32 = 125_000_000;

/// Clock cycles for which the sweep holds a position: one second.
pub const HOLD_CYCLES: u32 = 125_000_000;

/// Highest count of the slice that drives the curtain.
pub const CURTAIN_TOP: u16 = 19_999;

/// Highest count of the slice that sweeps.
pub const SWEEP_TOP: u16 = 20_000;

/// Settings of a PWM slice.
#[derive(Clone, Copy, Debug, PartialEq, Eq, Structural)]
pub struct PwmConfig {
    /// Count up and down, instead of starting over at zero behind the top.
    pub phase_correct: bool,
    /// Integer part of the clock divider.
    pub div_int: u8,
    /// Sixteenths that the clock divider has beyond the integer part.
    pub div_frac: u8,
    /// The highest count.
    pub top: u16,
}

impl PwmConfig {
    /// Clock cycles for which `counts` counts last, in sixteenths of a cycle.
    pub open spec fn sixteenths(self, counts: int) -> int {
        counts * (16 * self.div_int + self.div_frac)
    }
}

/// Settings of the slice that drives the curtain.
pub open spec fn curtain_config() -> PwmConfig {
    PwmConfig { phase_correct: false, div_int: 125, div_frac: 0, top: CURTAIN_TOP }
}

/// Settings of the slice that sweeps.
pub open spec fn sweep_config() -> PwmConfig {
    PwmConfig { phase_correct: false, div_int: 125, div_frac: 0, top: SWEEP_TOP }
}

/// Returns the settings of the slice that drives the curtain: it counts from zero to the top,
/// starts over, and does so fifty times a second.
pub fn curtain_pwm() -> (config: PwmConfig)
    ensures
        config == curtain_config(),
        50 * config.sixteenths(config.top + 1) == 16 * PWM_CLOCK_HZ,
{
    assert(20_000 * (16 * 125 + 0) == 40_000_000) by (nonlinear_arith);
    PwmConfig { phase_correct: false, div_int: 125, div_frac: 0, top: CURTAIN_TOP }
}

/// Returns the settings of the slice that sweeps: it reaches the top in a fiftieth of a second,
/// and starts over with the next count.
pub fn sweep_pwm() -> (config: PwmConfig)
    ensures
        config == sweep_config(),
        50 * config.sixteenths(config.top as int) == 16 * PWM_CLOCK_HZ,
        50 * (config.sixteenths(config.top + 1) - config.sixteenths(1)) == 16 * PWM_CLOCK_HZ,
{
    assert(20_000 * (16 * 125 + 0) == 40_000_000) by (nonlinear_arith);
    assert(20_001 * (16 * 125 + 0) - 1 * (16 * 125 + 0) == 40_000_000) by (nonlinear_arith);
    PwmConfig { phase_correct: false, div_int: 125, div_frac: 0, top: SWEEP_TOP }
}

/// One count lasts a microsecond, in both settings: `us` counts last `us` millionths of the
/// cycles of a second.
pub proof fn law_count_is_a_microsecond(us: int)
    ensures
        1_000_000 * curtain_config().sixteenths(us) == 16 * (us * PWM_CLOCK_HZ),
        1_000_000 * sweep_config().sixteenths(us) == 16 * (us * PWM_CLOCK_HZ),
{
    assert(us * (16 * 125 + 0) == 2000 * us) by (nonlinear_arith);
}

/// Converts a pulse width in microseconds to a compare value. One count is a microsecond.
pub fn us_to_pwm(us: u16) -> (level: u16)
    ensures
        level == us,
{
    us
}

/// Number of positions in a sweep.
pub const SWEEP_LEN: usize = 4;

/// The pulse width of each position of the sweep: left, center, right, center.
pub open spec fn sweep_position(step: int) -> u16 {
    if step == 0 {
        LEFT_US
    } else if step == 2 {
        RIGHT_US
    } else {
        CENTER_US
    }
}

/// An endless sweep of the servo: left, center, right, center, and again.
pub struct Sweep {
    step: usize,
}

impl View for Sweep {
    type V = nat;

    /// The position that comes next.
    closed spec fn view(&self) -> nat {
        self.step as nat
    }
}

impl Sweep {
    #[verifier::type_invariant]
    spec fn wf(self) -> bool {
        self.step < SWEEP_LEN
    }

    /// A sweep that starts on the left.
    pub fn new() -> (sweep: Sweep)
        ensures
            sweep@ == 0,
    {
        Sweep { step: 0 }
    }

    /// Returns the compare value of the next position.
    pub fn advance(&mut self) -> (level: u16)
        ensures
            old(self)@ < SWEEP_LEN,
            level == sweep_position(old(self)@ as int),
            final(self)@ == (old(self)@ + 1) % SWEEP_LEN as nat,
            final(self)@ == (old(self)@ + 1) % 4,
            level == (if old(self)@ == 0 {
                1000u16
            } else if old(self)@ == 2 {
                2000u16
            } else {
                1500u16
            }),
    {
        proof {
            use_type_invariant(&*self);
        }
        let positions: [u16; 4] = [LEFT_US, CENTER_US, RIGHT_US, CENTER_US];
        let level: u16 = us_to_pwm(positions[self.step]);
        self.step = (self.step + 1) % SWEEP_LEN;
        level
    }
}

/// The position that comes next after `calls` calls of `advance`.
pub open spec fn sweep_after(step: nat, calls: nat) -> nat
    decreases calls,
{
    if calls == 0 {
        step
    } else {
        (sweep_after(step, (calls - 1) as nat) + 1) % SWEEP_LEN as nat
    }
}

/// The sweep goes round: the position after `calls` calls depends only on `calls` modulo the
/// number of positions.
pub proof fn law_sweep_goes_round(step: nat, calls: nat)
    requires
        step < SWEEP_LEN,
    ensures
        sweep_after(step, calls) == (step + calls) % SWEEP_LEN as nat,
    decreases calls,
{
    if calls > 0 {
        law_sweep_goes_round(step, (calls - 1) as nat);
    }
}

/// The sweep, from its start, is left at every fourth call, right two calls later, and at the
/// center at the calls in between; and the positions of a call and of the second call after it
/// mirror each other at the center.
pub proof fn law_sweep_order(calls: nat)
    ensures
        sweep_position(sweep_after(0, calls) as int) == 1000 <==> calls % 4 == 0,
        sweep_position(sweep_after(0, calls) as int) == 2000 <==> calls % 4 == 2,
        sweep_position(sweep_after(0, calls) as int) == 1500 <==> calls % 2 == 1,
        sweep_position(sweep_after(0, calls) as int) + sweep_position(
            sweep_after(0, calls + 2) as int,
        ) == 3000,
{
    law_sweep_goes_round(0, calls);
    law_sweep_goes_round(0, calls + 2);
}

/// The sweep moves by half a turn at a time: it never jumps from one end to the other, and
/// never leaves the range between them.
pub proof fn law_sweep_never_jumps(step: nat)
    requires
        step < SWEEP_LEN,
    ensures
        LEFT_US <= sweep_position(step as int) <= RIGHT_US,
        ({
            let next = sweep_position(((step + 1) % SWEEP_LEN as nat) as int);
            let difference = next - sweep_position(step as int);
            difference == 500 || difference == -500
        }),
{
}

} // verus!
