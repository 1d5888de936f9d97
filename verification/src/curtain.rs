//! The curtain: a servo closes it when it gets dark, and opens it when it gets light again.

use crate::action::{Action, Message, POLL_INTERVAL_MS};
use crate::line::{decimal, line_text, status_line, status_text};
use crate::servo::{
    curtain_config, curtain_pwm, us_to_pwm, CENTER_US, LEFT_US, OFF, RIGHT_US,
};
use crate::veml7700::{
    init_writes, is_nearest_lux, raw_count, veml7700_init, veml7700_read_lux,
};
use vstd::prelude::*;

verus! {

/// An open curtain closes below this lux value.
pub const LUX_CLOSE_THRESHOLD: u32 = 9;

/// A closed curtain opens above this lux value, which is 10 lux higher, so that the curtain
/// does not swing to and fro around one value.
pub const LUX_OPEN_THRESHOLD: u32 = 19;

/// Polls of USB while the servo turns, and again before the next reading: five seconds.
pub const MOVE_ROUNDS: u16 = 500;

/// Time for which the servo gets the neutral pulse before its signal is cut, in milliseconds.
pub const STOP_MS: u32 = 200;

/// Number of actions that start the program.
pub const STARTUP_LEN: usize = 7;

/// Number of actions that move the curtain.
pub const MOVE_LEN: usize = 9;

/// Where the curtain is.
#[derive(Clone, Copy, Debug, PartialEq, Eq, Structural)]
pub enum CurtainState {
    Opened,
    Closed,
}

/// The actions that start the program.
pub open spec fn startup_steps() -> Seq<Action> {
    seq![
        Action::WriteSensor(init_writes()[0]),
        Action::WriteSensor(init_writes()[1]),
        Action::WriteSensor(init_writes()[2]),
        Action::WriteSensor(init_writes()[3]),
        Action::AwaitHost,
        Action::StartPwm(curtain_config()),
        Action::Say(Message::Ready),
    ]
}

/// Returns what to do before the first reading: set the sensor up, wait for a host, start the
/// servo's PWM slice and report.
pub fn startup() -> (actions: [Action; STARTUP_LEN])
    ensures
        actions@ == startup_steps(),
{
    let writes = veml7700_init();
    [
        Action::WriteSensor(writes[0]),
        Action::WriteSensor(writes[1]),
        Action::WriteSensor(writes[2]),
        Action::WriteSensor(writes[3]),
        Action::AwaitHost,
        Action::StartPwm(curtain_pwm()),
        Action::Say(Message::Ready),
    ]
}

/// The actions that move the curtain: report, set the LED, drive the servo for five seconds,
/// stop it, report again, and wait five seconds.
pub open spec fn move_steps(start: Message, led: bool, level: u16, end: Message) -> Seq<Action> {
    seq![
        Action::Say(start),
        Action::Led { high: led },
        Action::Duty(level),
        Action::Serve { rounds: MOVE_ROUNDS, interval_ms: POLL_INTERVAL_MS },
        Action::Duty(CENTER_US),
        Action::Pause { ms: STOP_MS },
        Action::Duty(OFF),
        Action::Say(end),
        Action::Serve { rounds: MOVE_ROUNDS, interval_ms: POLL_INTERVAL_MS },
    ]
}

/// The actions that close the curtain.
pub open spec fn closing_steps() -> Seq<Action> {
    move_steps(Message::Closing, true, LEFT_US, Message::Closed)
}

/// The actions that open the curtain.
pub open spec fn opening_steps() -> Seq<Action> {
    move_steps(Message::Opening, false, RIGHT_US, Message::Opened)
}

/// Returns the actions that move the curtain with a pulse of `us` microseconds.
fn move_curtain(start: Message, led: bool, us: u16, end: Message) -> (steps: [Action; MOVE_LEN])
    ensures
        steps@ == move_steps(start, led, us, end),
{
    [
        Action::Say(start),
        Action::Led { high: led },
        Action::Duty(us_to_pwm(us)),
        Action::Serve { rounds: MOVE_ROUNDS, interval_ms: POLL_INTERVAL_MS },
        Action::Duty(us_to_pwm(CENTER_US)),
        Action::Pause { ms: STOP_MS },
        Action::Duty(OFF),
        Action::Say(end),
        Action::Serve { rounds: MOVE_ROUNDS, interval_ms: POLL_INTERVAL_MS },
    ]
}

/// What follows a reading: the line is logged first, and then the steps are taken.
pub struct Report {
    /// The lux value that was read.
    pub lux: u32,
    /// The line to log, with the state in which the value was read.
    pub line: heapless::String<64>,
    /// The actions that move the curtain, if it has to move.
    pub steps: Option<[Action; MOVE_LEN]>,
}

impl CurtainState {
    /// The name of the state, as it is logged.
    pub open spec fn name(self) -> Seq<char> {
        match self {
            CurtainState::Opened => "Opened"@,
            CurtainState::Closed => "Closed"@,
        }
    }

    /// Whether a lux value makes the curtain move.
    pub open spec fn moves(self, lux: nat) -> bool {
        match self {
            CurtainState::Opened => lux < LUX_CLOSE_THRESHOLD,
            CurtainState::Closed => lux > LUX_OPEN_THRESHOLD,
        }
    }

    /// The other state.
    pub open spec fn other(self) -> CurtainState {
        match self {
            CurtainState::Opened => CurtainState::Closed,
            CurtainState::Closed => CurtainState::Opened,
        }
    }

    /// The state after a lux value.
    pub open spec fn after(self, lux: nat) -> CurtainState {
        if self.moves(lux) {
            self.other()
        } else {
            self
        }
    }

    /// The actions that a lux value calls for.
    pub open spec fn steps(self, lux: nat) -> Seq<Action> {
        if !self.moves(lux) {
            Seq::empty()
        } else if self == CurtainState::Opened {
            closing_steps()
        } else {
            opening_steps()
        }
    }

    /// The state in which the program starts: the curtain is taken to be open.
    pub fn initial() -> (state: CurtainState)
        ensures
            state == CurtainState::Opened,
    {
        CurtainState::Opened
    }

    /// Returns the name of the state.
    pub fn as_str(&self) -> (name: &'static str)
        ensures
            name@ == self.name(),
    {
        match self {
            CurtainState::Opened => "Opened",
            CurtainState::Closed => "Closed",
        }
    }

    /// Decides what a lux value calls for: an open curtain closes in the dark, a closed one
    /// opens in the light, and in between nothing happens.
    pub fn react(&mut self, lux: u32) -> (steps: Option<[Action; MOVE_LEN]>)
        ensures
            *final(self) == old(self).after(lux as nat),
            *final(self) == CurtainState::Closed <==> lux < 9 || (*old(self)
                == CurtainState::Closed && lux <= 19),
            steps is Some <==> old(self).moves(lux as nat),
            steps is Some <==> *final(self) != *old(self),
            steps matches Some(steps) ==> steps@ == old(self).steps(lux as nat),
    {
        match *self {
            CurtainState::Opened => {
                if lux < LUX_CLOSE_THRESHOLD {
                    *self = CurtainState::Closed;
                    Some(move_curtain(Message::Closing, true, LEFT_US, Message::Closed))
                } else {
                    None
                }
            },
            CurtainState::Closed => {
                if lux > LUX_OPEN_THRESHOLD {
                    *self = CurtainState::Opened;
                    Some(move_curtain(Message::Opening, false, RIGHT_US, Message::Opened))
                } else {
                    None
                }
            },
        }
    }

    /// Takes the two bytes that the sensor answered, and returns what to log and what to do.
    pub fn on_reading(&mut self, buf: [u8; 2]) -> (report: Report)
        ensures
            is_nearest_lux(raw_count(buf@), report.lux as int),
            -10000 < 2 * (10000 * report.lux - 4608 * (buf[0] + 256 * buf[1])) <= 10000,
            line_text(report.line) == status_text(report.lux as nat, *old(self)),
            line_text(report.line) == "Lux: "@ + decimal(report.lux as nat) + " State: "@
                + old(self).name() + "\r\n"@,
            *final(self) == old(self).after(report.lux as nat),
            *final(self) == CurtainState::Closed <==> report.lux < 9 || (*old(self)
                == CurtainState::Closed && report.lux <= 19),
            report.steps is Some <==> *final(self) != *old(self),
            report.steps is Some <==> old(self).moves(report.lux as nat),
            report.steps matches Some(steps) ==> steps@ == old(self).steps(report.lux as nat),
    {
        let lux: u32 = veml7700_read_lux(buf);
        let line = status_line(lux, self);
        let steps = self.react(lux);
        Report { lux, line, steps }
    }
}

} // verus!
