//! What the programs do to the hardware, as values, and a model of what that brings about.

use crate::curtain::STOP_MS;
use crate::servo::{PwmConfig, CENTER_US};
use crate::veml7700::{RegisterWrite, SETTLE_MS};
use vstd::prelude::*;

verus! {

/// A fixed text that is reported over the serial port.
#[derive(Clone, Copy, Debug, PartialEq, Eq, Structural)]
pub enum Message {
    Ready,
    Closing,
    Closed,
    Opening,
    Opened,
}

impl Message {
    /// The characters of the message.
    pub open spec fn chars(self) -> Seq<char> {
        match self {
            Message::Ready => "VEML7700 Light Sensor ready\r\n"@,
            Message::Closing => "Closing curtain...\r\n"@,
            Message::Closed => "Curtain closed.\r\n"@,
            Message::Opening => "Opening curtain...\r\n"@,
            Message::Opened => "Curtain opened.\r\n"@,
        }
    }

    /// Returns the text of the message.
    pub fn text(&self) -> (text: &'static str)
        ensures
            text@ == self.chars(),
    {
        match self {
            Message::Ready => "VEML7700 Light Sensor ready\r\n",
            Message::Closing => "Closing curtain...\r\n",
            Message::Closed => "Curtain closed.\r\n",
            Message::Opening => "Opening curtain...\r\n",
            Message::Opened => "Curtain opened.\r\n",
        }
    }
}

/// One thing to do to the hardware.
#[derive(Clone, Copy, Debug, PartialEq, Eq, Structural)]
pub enum Action {
    /// Write a register of the sensor.
    WriteSensor(RegisterWrite),
    /// Send the sensor its `light_request`, and take its answer in the buffer `light_reply`.
    ReadLight,
    /// Poll USB until a host has configured the device.
    AwaitHost,
    /// Start the PWM slice of the servo.
    StartPwm(PwmConfig),
    /// Send a message over the serial port.
    Say(Message),
    /// Drive the LED pin high or low.
    Led { high: bool },
    /// Set the compare value of the servo's PWM channel.
    Duty(u16),
    /// Poll USB and wait, again and again, so that the host does not lose the device.
    Serve { rounds: u16, interval_ms: u32 },
    /// Wait.
    Pause { ms: u32 },
}

/// Time between two polls of USB, in milliseconds.
pub const POLL_INTERVAL_MS: u32 = 10;

/// Polls of USB before each reading: about a second.
pub const READING_ROUNDS: u16 = 100;

/// How a reading is made.
pub open spec fn reading_steps() -> Seq<Action> {
    seq![
        Action::Serve { rounds: READING_ROUNDS, interval_ms: POLL_INTERVAL_MS },
        Action::Pause { ms: SETTLE_MS },
        Action::ReadLight,
    ]
}

/// Returns how to make a reading: serve USB for a second, let the sensor settle, and read it.
pub fn make_reading() -> (actions: [Action; 3])
    ensures
        actions@ == reading_steps(),
{
    [
        Action::Serve { rounds: READING_ROUNDS, interval_ms: POLL_INTERVAL_MS },
        Action::Pause { ms: SETTLE_MS },
        Action::ReadLight,
    ]
}

/// The hardware, as far as the programs act on it.
#[verifier::ext_equal]
pub struct Device {
    /// The low and high byte of the sensor's registers, as far as they were written.
    pub registers: Map<u8, (u8, u8)>,
    /// How often the light was read from the sensor.
    pub light_reads: nat,
    /// Whether a host has configured the USB device.
    pub host: bool,
    /// The settings with which the PWM slice runs.
    pub pwm: Option<PwmConfig>,
    /// Whether the LED pin is high.
    pub led: bool,
    /// The compare value of the servo's PWM channel.
    pub duty: u16,
    /// The characters that were handed to the serial port.
    pub output: Seq<char>,
    /// Milliseconds for which the servo was driven left: by any pulse below the center.
    pub left_ms: nat,
    /// Milliseconds for which the servo was driven right: by any pulse above the center.
    pub right_ms: nat,
    /// Milliseconds for which the servo was held still by the pulse at the center.
    pub still_ms: nat,
    /// Milliseconds that passed.
    pub elapsed_ms: nat,
    /// Milliseconds that passed since USB was polled.
    pub unpolled_ms: nat,
    /// The most milliseconds that passed without a poll of USB.
    pub longest_unpolled_ms: nat,
}

/// The larger of two numbers.
pub open spec fn larger(a: nat, b: nat) -> nat {
    if a < b {
        b
    } else {
        a
    }
}

impl Device {
    /// Characters are handed to the serial port.
    pub open spec fn print(self, chars: Seq<char>) -> Device {
        Device { output: self.output + chars, ..self }
    }

    /// Time passes.
    pub open spec fn wait(self, ms: nat) -> Device {
        Device {
            left_ms: self.left_ms + if 0 < self.duty < CENTER_US { ms } else { 0 },
            right_ms: self.right_ms + if self.duty > CENTER_US { ms } else { 0 },
            still_ms: self.still_ms + if self.duty == CENTER_US { ms } else { 0 },
            elapsed_ms: self.elapsed_ms + ms,
            unpolled_ms: self.unpolled_ms + ms,
            longest_unpolled_ms: larger(self.longest_unpolled_ms, self.unpolled_ms + ms),
            ..self
        }
    }

    /// USB is polled.
    pub open spec fn poll(self) -> Device {
        Device { unpolled_ms: 0, ..self }
    }

    /// USB is polled and time passes, `rounds` times.
    pub open spec fn serve(self, rounds: nat, interval_ms: nat) -> Device
        decreases rounds,
    {
        if rounds == 0 {
            self
        } else {
            self.serve((rounds - 1) as nat, interval_ms).poll().wait(interval_ms)
        }
    }

    /// An action is performed.
    pub open spec fn act(self, action: Action) -> Device {
        match action {
            Action::WriteSensor(write) => Device {
                registers: self.registers.insert(write.register, (write.low, write.high)),
                ..self
            },
            Action::ReadLight => Device { light_reads: self.light_reads + 1, ..self },
            Action::AwaitHost => Device { host: true, ..self.poll() },
            Action::StartPwm(config) => Device { pwm: Some(config), ..self },
            Action::Say(message) => self.print(message.chars()),
            Action::Led { high } => Device { led: high, ..self },
            Action::Duty(duty) => Device { duty, ..self },
            Action::Serve { rounds, interval_ms } => self.serve(
                rounds as nat,
                interval_ms as nat,
            ),
            Action::Pause { ms } => self.wait(ms as nat),
        }
    }

    /// The first `n` actions are performed, one after the other.
    pub open spec fn act_first(self, actions: Seq<Action>, n: nat) -> Device
        decreases n,
    {
        if n == 0 {
            self
        } else {
            self.act_first(actions, (n - 1) as nat).act(actions[n - 1])
        }
    }

    /// All actions are performed, one after the other.
    pub open spec fn act_all(self, actions: Seq<Action>) -> Device {
        self.act_first(actions, actions.len())
    }
}

/// Serving USB passes as much time as its rounds take together, with no more than the interval
/// between polls.
pub proof fn law_serving(device: Device, rounds: nat, interval_ms: nat)
    requires
        rounds > 0,
    ensures
        device.serve(rounds, interval_ms) == (Device {
            unpolled_ms: interval_ms,
            longest_unpolled_ms: larger(device.longest_unpolled_ms, interval_ms),
            ..device.wait(rounds * interval_ms)
        }),
    decreases rounds,
{
    reveal_with_fuel(Device::serve, 2);
    if rounds > 1 {
        law_serving(device, (rounds - 1) as nat, interval_ms);
        assert(rounds * interval_ms == (rounds - 1) * interval_ms + interval_ms)
            by (nonlinear_arith);
    } else {
        assert(1 * interval_ms == interval_ms);
    }
}

/// Making a reading takes a little more than a second, and does nothing else but to poll USB and
/// to read the sensor once, when all of that time has passed.
pub proof fn law_making_a_reading(device: Device)
    ensures
        device.act_first(reading_steps(), 2) == (Device {
            unpolled_ms: (SETTLE_MS + POLL_INTERVAL_MS) as nat,
            longest_unpolled_ms: larger(
                device.longest_unpolled_ms,
                (SETTLE_MS + POLL_INTERVAL_MS) as nat,
            ),
            ..device.wait(1040)
        }),
        device.act_all(reading_steps()) == (Device {
            light_reads: device.light_reads + 1,
            ..device.act_first(reading_steps(), 2)
        }),
{
    reveal_with_fuel(Device::act_first, 4);
    let steps = reading_steps();
    law_serving(device, READING_ROUNDS as nat, POLL_INTERVAL_MS as nat);
    assert(device.act_first(steps, 2) == device.act(steps[0]).act(steps[1]));
    assert(READING_ROUNDS * POLL_INTERVAL_MS == 1000);
}

/// Whether the steps never leave USB alone for long: a pause is at most `STOP_MS`, and where
/// USB is served, it is polled at least every `POLL_INTERVAL_MS`.
pub open spec fn keep_usb_alive(steps: Seq<Action>) -> bool {
    forall|i: int|
        0 <= i < steps.len() ==> {
            &&& #[trigger] steps[i] matches Action::Pause { ms } ==> ms <= STOP_MS
            &&& steps[i] matches Action::Serve { rounds, interval_ms } ==> interval_ms
                <= POLL_INTERVAL_MS
        }
}

} // verus!
