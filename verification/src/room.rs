//! A room with a curtain, over a series of readings: what holds however the light changes.

use crate::action::{
    keep_usb_alive, larger, law_making_a_reading, law_serving, reading_steps, Action, Device,
    Message, POLL_INTERVAL_MS,
};
use crate::curtain::{
    closing_steps, move_steps, opening_steps, startup_steps, CurtainState, LUX_CLOSE_THRESHOLD,
    LUX_OPEN_THRESHOLD, MOVE_ROUNDS, STOP_MS,
};
use crate::line::status_text;
use crate::servo::{curtain_config, CURTAIN_TOP, LEFT_US, OFF, RIGHT_US};
use crate::veml7700::{REG_ALS_CONF, REG_ALS_WH, REG_ALS_WL, REG_POW_SAV};
use vstd::prelude::*;

verus! {

/// The state that the program keeps, and the hardware that it acts on.
#[verifier::ext_equal]
pub struct Room {
    pub state: CurtainState,
    pub device: Device,
}

impl Room {
    /// A reading is made, logged and acted on.
    pub open spec fn read(self, lux: nat) -> Room {
        Room {
            state: self.state.after(lux),
            device: self.device.act_all(reading_steps()).print(
                status_text(lux, self.state),
            ).act_all(self.state.steps(lux)),
        }
    }

    /// A series of readings.
    pub open spec fn read_all(self, readings: Seq<nat>) -> Room
        decreases readings.len(),
    {
        if readings.len() == 0 {
            self
        } else {
            self.read_all(readings.drop_last()).read(readings.last())
        }
    }

    /// The servo has no signal, the LED shows whether the curtain is closed, and the servo was
    /// driven as far to the left as to the right, but for the five seconds to the left that a
    /// closed curtain is away from an open one.
    pub open spec fn at_rest(self) -> bool {
        &&& self.device.duty == OFF
        &&& self.device.led <==> self.state == CurtainState::Closed
        &&& self.device.left_ms == self.device.right_ms + if self.state == CurtainState::Closed {
            5000nat
        } else {
            0nat
        }
    }
}

/// Starting the program configures the sensor for the gain that lux values are computed with,
/// clears both threshold windows, turns power saving off, waits for a host, starts the PWM
/// slice, and reports; the servo gets no signal and the LED stays as it is.
pub proof fn law_startup(device: Device)
    ensures
        device.act_all(startup_steps()) == (Device {
            registers: device.registers.insert(REG_ALS_CONF, (0x00, 0x10)).insert(
                REG_ALS_WH,
                (0, 0),
            ).insert(REG_ALS_WL, (0, 0)).insert(REG_POW_SAV, (0, 0)),
            host: true,
            pwm: Some(curtain_config()),
            output: device.output + Message::Ready.chars(),
            unpolled_ms: 0,
            ..device
        }),
{
    reveal_with_fuel(Device::act_first, 8);
}

/// Nothing is handed to the serial port before a host has configured the device.
pub proof fn law_host_comes_first(device: Device, n: nat)
    requires
        n <= startup_steps().len(),
        !device.act_first(startup_steps(), n).host,
    ensures
        device.act_first(startup_steps(), n).output == device.output,
{
    reveal_with_fuel(Device::act_first, 8);
}

/// Closing the curtain drives the servo left for five seconds and not right, cuts its signal,
/// lights the LED, reports start and end, and takes ten seconds and the neutral pulse.
pub proof fn law_closing(device: Device)
    ensures
        device.act_all(closing_steps()) == (Device {
            led: true,
            duty: OFF,
            output: device.output + Message::Closing.chars() + Message::Closed.chars(),
            left_ms: device.left_ms + 5000,
            still_ms: device.still_ms + 200,
            elapsed_ms: device.elapsed_ms + 10200,
            unpolled_ms: POLL_INTERVAL_MS as nat,
            longest_unpolled_ms: larger(
                device.longest_unpolled_ms,
                (STOP_MS + POLL_INTERVAL_MS) as nat,
            ),
            ..device
        }),
{
    lemma_move(device, Message::Closing, true, LEFT_US, Message::Closed);
}

/// Opening the curtain drives the servo right for five seconds and not left, cuts its signal,
/// turns the LED off, reports start and end, and takes ten seconds and the neutral pulse.
pub proof fn law_opening(device: Device)
    ensures
        device.act_all(opening_steps()) == (Device {
            led: false,
            duty: OFF,
            output: device.output + Message::Opening.chars() + Message::Opened.chars(),
            right_ms: device.right_ms + 5000,
            still_ms: device.still_ms + 200,
            elapsed_ms: device.elapsed_ms + 10200,
            unpolled_ms: POLL_INTERVAL_MS as nat,
            longest_unpolled_ms: larger(
                device.longest_unpolled_ms,
                (STOP_MS + POLL_INTERVAL_MS) as nat,
            ),
            ..device
        }),
{
    lemma_move(device, Message::Opening, false, RIGHT_US, Message::Opened);
}

/// What the steps of a move do to the device.
proof fn lemma_move(device: Device, start: Message, led: bool, level: u16, end: Message)
    requires
        level == LEFT_US || level == RIGHT_US,
    ensures
        device.act_all(move_steps(start, led, level, end)) == (Device {
            led,
            duty: OFF,
            output: device.output + start.chars() + end.chars(),
            left_ms: device.left_ms + if level == LEFT_US { 5000nat } else { 0nat },
            right_ms: device.right_ms + if level == RIGHT_US { 5000nat } else { 0nat },
            still_ms: device.still_ms + 200,
            elapsed_ms: device.elapsed_ms + 10200,
            unpolled_ms: POLL_INTERVAL_MS as nat,
            longest_unpolled_ms: larger(
                device.longest_unpolled_ms,
                (STOP_MS + POLL_INTERVAL_MS) as nat,
            ),
            ..device
        }),
{
    let steps = move_steps(start, led, level, end);
    lemma_nine_steps(device, steps);
    assert(MOVE_ROUNDS * POLL_INTERVAL_MS == 5000);
    let started = device.act(steps[0]).act(steps[1]).act(steps[2]);
    assert(started == Device {
        led,
        duty: level,
        output: device.output + start.chars(),
        ..device
    });
    let driven = started.act(steps[3]);
    assert(driven == Device {
        unpolled_ms: 10,
        longest_unpolled_ms: larger(device.longest_unpolled_ms, 10),
        ..started.wait(5000)
    }) by {
        law_serving(started, MOVE_ROUNDS as nat, POLL_INTERVAL_MS as nat);
    }
    let stopped = driven.act(steps[4]).act(steps[5]).act(steps[6]).act(steps[7]);
    assert(stopped == Device {
        duty: OFF,
        output: driven.output + end.chars(),
        still_ms: driven.still_ms + 200,
        elapsed_ms: driven.elapsed_ms + 200,
        unpolled_ms: 210,
        longest_unpolled_ms: larger(device.longest_unpolled_ms, 210),
        ..driven
    });
    assert(stopped.act(steps[8]) == Device {
        unpolled_ms: 10,
        longest_unpolled_ms: larger(device.longest_unpolled_ms, 210),
        ..stopped.wait(5000)
    }) by {
        law_serving(stopped, MOVE_ROUNDS as nat, POLL_INTERVAL_MS as nat);
    }
}

/// Nine steps, one by one.
proof fn lemma_nine_steps(device: Device, steps: Seq<Action>)
    requires
        steps.len() == 9,
    ensures
        device.act_all(steps) == device.act(steps[0]).act(steps[1]).act(steps[2]).act(
            steps[3],
        ).act(steps[4]).act(steps[5]).act(steps[6]).act(steps[7]).act(steps[8]),
{
    reveal_with_fuel(Device::act_first, 10);
}

/// The compare value after the first `n` steps, where it was `level` before them.
pub open spec fn level_after(level: u16, steps: Seq<Action>, n: nat) -> u16
    decreases n,
{
    if n == 0 {
        level
    } else {
        match steps[n - 1] {
            Action::Duty(set) => set,
            _ => level_after(level, steps, (n - 1) as nat),
        }
    }
}

/// The signal that the servo gets over the first `n` steps: each stretch of time that they let
/// pass, in milliseconds, with the compare value during it.
pub open spec fn signal(level: u16, steps: Seq<Action>, n: nat) -> Seq<(u16, nat)>
    decreases n,
{
    if n == 0 {
        Seq::empty()
    } else {
        let before = signal(level, steps, (n - 1) as nat);
        match steps[n - 1] {
            Action::Serve { rounds, interval_ms } => before.push(
                (level_after(level, steps, (n - 1) as nat), (rounds * interval_ms) as nat),
            ),
            Action::Pause { ms } => before.push(
                (level_after(level, steps, (n - 1) as nat), ms as nat),
            ),
            _ => before,
        }
    }
}

/// In the dark, an open curtain gets this signal and no other: left for five seconds, still for
/// 200 milliseconds, and nothing for five seconds.
pub proof fn law_signal_in_the_dark(level: u16, lux: nat)
    requires
        lux < 9,
    ensures
        ({
            let steps = CurtainState::Opened.steps(lux);
            signal(level, steps, steps.len()) == seq![(1000u16, 5000nat), (1500, 200), (0, 5000)]
        }),
{
    lemma_move_signal(level, Message::Closing, true, LEFT_US, Message::Closed);
}

/// In the light, a closed curtain gets this signal and no other: right for five seconds, still
/// for 200 milliseconds, and nothing for five seconds.
pub proof fn law_signal_in_the_light(level: u16, lux: nat)
    requires
        lux > 19,
    ensures
        ({
            let steps = CurtainState::Closed.steps(lux);
            signal(level, steps, steps.len()) == seq![(2000u16, 5000nat), (1500, 200), (0, 5000)]
        }),
{
    lemma_move_signal(level, Message::Opening, false, RIGHT_US, Message::Opened);
}

proof fn lemma_move_signal(level: u16, start: Message, led: bool, drive: u16, end: Message)
    ensures
        ({
            let steps = move_steps(start, led, drive, end);
            signal(level, steps, steps.len()) == seq![(drive, 5000nat), (1500, 200), (0, 5000)]
        }),
{
    reveal_with_fuel(signal, 10);
    reveal_with_fuel(level_after, 10);
    assert(MOVE_ROUNDS * POLL_INTERVAL_MS == 5000);
}

/// How the curtain moves does not depend on the lux value that makes it move, and a lux value
/// that does not make it move calls for nothing.
pub proof fn law_moves_are_alike(state: CurtainState, lux1: nat, lux2: nat)
    ensures
        state.after(lux1) == state.after(lux2) ==> state.steps(lux1) == state.steps(lux2),
        state.after(lux1) == state ==> state.steps(lux1).len() == 0,
        state.after(lux1) != state ==> state.steps(lux1).len() > 0,
{
}

/// A curtain is closed below 9 lux and open above 19 lux, and stays as it is in between.
pub proof fn law_thresholds(state: CurtainState, lux: nat)
    ensures
        lux < 9 ==> state.after(lux) == CurtainState::Closed,
        lux > 19 ==> state.after(lux) == CurtainState::Opened,
        9 <= lux <= 19 ==> state.after(lux) == state,
        state.moves(lux) <==> state.after(lux) != state,
{
}

/// A lux value that is read twice in a row moves the curtain at the first reading at most.
pub proof fn law_same_light_moves_once(state: CurtainState, lux: nat)
    ensures
        state.after(lux).after(lux) == state.after(lux),
        state.after(lux).steps(lux).len() == 0,
{
}

/// Every level that the servo gets is within a period, so that its signal is a pulse in each
/// period, or, with `OFF`, cut.
pub proof fn law_levels_are_within_a_period(state: CurtainState, lux: nat, i: int)
    requires
        0 <= i < state.steps(lux).len(),
    ensures
        state.steps(lux)[i] matches Action::Duty(level) ==> level <= CURTAIN_TOP,
{
}

/// Whatever is read, a room at rest is at rest again after each reading, and the sensor is read
/// once for each.
pub proof fn law_room_comes_to_rest(room: Room, readings: Seq<nat>)
    requires
        room.at_rest(),
    ensures
        room.read_all(readings).at_rest(),
        room.read_all(readings).device.light_reads == room.device.light_reads + readings.len(),
    decreases readings.len(),
{
    if readings.len() > 0 {
        let before = room.read_all(readings.drop_last());
        let lux = readings.last();
        law_room_comes_to_rest(room, readings.drop_last());
        law_making_a_reading(before.device);
        let logged = before.device.act_all(reading_steps()).print(status_text(lux, before.state));
        law_closing(logged);
        law_opening(logged);
    }
}

/// The program, started on a device that does not move and whose LED is off, is at rest before
/// the first reading and after each one.
pub proof fn law_program_comes_to_rest(device: Device, readings: Seq<nat>)
    requires
        device.duty == OFF,
        !device.led,
        device.left_ms == device.right_ms,
    ensures
        (Room {
            state: CurtainState::Opened,
            device: device.act_all(startup_steps()),
        }).read_all(readings).at_rest(),
{
    law_startup(device);
    law_room_comes_to_rest(
        Room { state: CurtainState::Opened, device: device.act_all(startup_steps()) },
        readings,
    );
}

/// The steps of the program keep USB alive: those that start it, make a reading and move the
/// curtain.
pub proof fn law_steps_keep_usb_alive(state: CurtainState, lux: nat)
    ensures
        keep_usb_alive(startup_steps()),
        keep_usb_alive(reading_steps()),
        keep_usb_alive(state.steps(lux)),
{
}

/// Over the whole program, USB is never left alone for longer than the pause in which the servo
/// stops and the interval before it, however the light changes.
pub proof fn law_usb_is_polled(device: Device, readings: Seq<nat>)
    requires
        device.longest_unpolled_ms <= STOP_MS + POLL_INTERVAL_MS,
    ensures
        (Room {
            state: CurtainState::Opened,
            device: device.act_all(startup_steps()),
        }).read_all(readings).device.longest_unpolled_ms <= STOP_MS + POLL_INTERVAL_MS,
    decreases readings.len(),
{
    law_startup(device);
    if readings.len() > 0 {
        let room = Room { state: CurtainState::Opened, device: device.act_all(startup_steps()) };
        let before = room.read_all(readings.drop_last());
        let lux = readings.last();
        law_usb_is_polled(device, readings.drop_last());
        law_making_a_reading(before.device);
        let logged = before.device.act_all(reading_steps()).print(status_text(lux, before.state));
        law_closing(logged);
        law_opening(logged);
    }
}

/// Each reading is logged with the state before it, and nothing else is reported but the moves
/// that it calls for.
pub proof fn law_reading_is_logged(room: Room, lux: nat)
    ensures
        room.read(lux).device.output == room.device.output + status_text(lux, room.state) + (
        if !room.state.moves(lux) {
            Seq::empty()
        } else if room.state == CurtainState::Opened {
            Message::Closing.chars() + Message::Closed.chars()
        } else {
            Message::Opening.chars() + Message::Opened.chars()
        }),
{
    law_making_a_reading(room.device);
    let logged = room.device.act_all(reading_steps()).print(status_text(lux, room.state));
    law_closing(logged);
    law_opening(logged);
}

/// Whether a lux value is outside the band in which a curtain stays as it is.
pub open spec fn decisive(lux: nat) -> bool {
    lux < LUX_CLOSE_THRESHOLD || lux > LUX_OPEN_THRESHOLD
}

/// Readings inside the band leave the curtain as it is.
pub proof fn law_band_keeps_the_state(room: Room, readings: Seq<nat>)
    requires
        forall|i: int| 0 <= i < readings.len() ==> !decisive(#[trigger] readings[i]),
    ensures
        room.read_all(readings).state == room.state,
    decreases readings.len(),
{
    if readings.len() > 0 {
        law_band_keeps_the_state(room, readings.drop_last());
        assert(!decisive(readings[readings.len() - 1]));
    }
}

/// The last reading outside the band decides: the curtain is closed if it was dark then, and
/// open if it was light, whatever came before.
pub proof fn law_last_decisive_reading_decides(room: Room, readings: Seq<nat>, last: int)
    requires
        0 <= last < readings.len(),
        decisive(readings[last]),
        forall|i: int| last < i < readings.len() ==> !decisive(#[trigger] readings[i]),
    ensures
        room.read_all(readings).state == if readings[last] < LUX_CLOSE_THRESHOLD {
            CurtainState::Closed
        } else {
            CurtainState::Opened
        },
    decreases readings.len(),
{
    if last < readings.len() - 1 {
        law_last_decisive_reading_decides(room, readings.drop_last(), last);
        assert(!decisive(readings[readings.len() - 1]));
    }
}

/// How often the curtain moves over a series of readings.
pub open spec fn count_moves(room: Room, readings: Seq<nat>) -> nat
    decreases readings.len(),
{
    if readings.len() == 0 {
        0
    } else {
        let before = room.read_all(readings.drop_last());
        count_moves(room, readings.drop_last()) + if before.state.moves(readings.last()) {
            1nat
        } else {
            0nat
        }
    }
}

/// The curtain does not swing to and fro: while the light stays within a range that is at
/// most one lux wider than the distance of the thresholds, it moves at most once.
pub proof fn law_no_oscillation(room: Room, readings: Seq<nat>, low: nat, high: nat)
    requires
        high - low <= LUX_OPEN_THRESHOLD - LUX_CLOSE_THRESHOLD + 1,
        forall|i: int| 0 <= i < readings.len() ==> low <= #[trigger] readings[i] <= high,
    ensures
        count_moves(room, readings) <= 1,
        count_moves(room, readings) == 0 ==> room.read_all(readings).state == room.state,
        count_moves(room, readings) == 1 ==> room.read_all(readings).state == room.state.other(),
{
    lemma_moves_in_range(room, readings, low, high);
}

/// Within such a range, the one move that can happen needs an end of the range beyond its
/// threshold; the other end is then short of the other threshold.
proof fn lemma_moves_in_range(room: Room, readings: Seq<nat>, low: nat, high: nat)
    requires
        high - low <= LUX_OPEN_THRESHOLD - LUX_CLOSE_THRESHOLD + 1,
        forall|i: int| 0 <= i < readings.len() ==> low <= #[trigger] readings[i] <= high,
    ensures
        count_moves(room, readings) <= 1,
        count_moves(room, readings) == 0 ==> room.read_all(readings).state == room.state,
        count_moves(room, readings) == 1 ==> {
            &&& room.read_all(readings).state == room.state.other()
            &&& room.state == CurtainState::Opened ==> low < LUX_CLOSE_THRESHOLD
            &&& room.state == CurtainState::Closed ==> high > LUX_OPEN_THRESHOLD
        },
    decreases readings.len(),
{
    if readings.len() > 0 {
        lemma_moves_in_range(room, readings.drop_last(), low, high);
        assert(low <= readings[readings.len() - 1] <= high);
    }
}

} // verus!
