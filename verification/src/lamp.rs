//! The light sensor on its own: an LED that is on in the dark.

use crate::action::{
    keep_usb_alive, law_making_a_reading, reading_steps, Action, Device, Message,
    POLL_INTERVAL_MS,
};
use crate::line::{decimal, line_text, lux_line, lux_text};
use crate::veml7700::{
    init_writes, is_nearest_lux, raw_count, veml7700_init, veml7700_read_lux, REG_ALS_CONF,
    REG_ALS_WH, REG_ALS_WL, REG_POW_SAV, SETTLE_MS,
};
use vstd::prelude::*;

verus! {

/// The LED is on below this lux value.
pub const LED_LUX_THRESHOLD: u32 = 39;

/// Number of actions that start the program.
pub const STARTUP_LEN: usize = 6;

/// The actions that start the program.
pub open spec fn startup_steps() -> Seq<Action> {
    seq![
        Action::WriteSensor(init_writes()[0]),
        Action::WriteSensor(init_writes()[1]),
        Action::WriteSensor(init_writes()[2]),
        Action::WriteSensor(init_writes()[3]),
        Action::AwaitHost,
        Action::Say(Message::Ready),
    ]
}

/// Returns what to do before the first reading: set the sensor up, wait for a host and report.
pub fn startup() -> (actions: [Action; STARTUP_LEN])
    ensures
        actions@ == startup_steps(),
{
    let writes = veml7700_init();
    [
        Action::WriteSensor(writes[0]),
        Action::WriteSensor(writes[1]),
        Action::WriteSensor(writes[2]),
        Action::WriteSensor(writes[3]),
        Action::AwaitHost,
        Action::Say(Message::Ready),
    ]
}

/// What follows a reading.
pub struct LampReport {
    /// The lux value that was read.
    pub lux: u32,
    /// The line to log.
    pub line: heapless::String<64>,
    /// The level that the LED gets.
    pub led: Action,
}

/// Returns what a lux value does to the LED: on if it is dark, off otherwise.
pub fn led_for(lux: u32) -> (led: Action)
    ensures
        led == (Action::Led { high: lux < LED_LUX_THRESHOLD }),
        led == (Action::Led { high: lux < 39 }),
{
    Action::Led { high: lux < LED_LUX_THRESHOLD }
}

/// Takes the two bytes that the sensor answered, and returns what to log and what to do.
pub fn on_reading(buf: [u8; 2]) -> (report: LampReport)
    ensures
        is_nearest_lux(raw_count(buf@), report.lux as int),
        line_text(report.line) == lux_text(report.lux as nat),
        report.led == (Action::Led { high: report.lux < LED_LUX_THRESHOLD }),
        -10000 < 2 * (10000 * report.lux - 4608 * (buf[0] + 256 * buf[1])) <= 10000,
        line_text(report.line) == "Lux: "@ + decimal(report.lux as nat) + "\r\n"@,
        report.led == (Action::Led { high: report.lux < 39 }),
{
    let lux: u32 = veml7700_read_lux(buf);
    let line = lux_line(lux);
    LampReport { lux, line, led: led_for(lux) }
}

/// A reading is made, logged and acted on.
pub open spec fn read(device: Device, lux: nat) -> Device {
    device.act_all(reading_steps()).print(lux_text(lux)).act(
        Action::Led { high: lux < LED_LUX_THRESHOLD },
    )
}

/// A series of readings.
pub open spec fn read_all(device: Device, readings: Seq<nat>) -> Device
    decreases readings.len(),
{
    if readings.len() == 0 {
        device
    } else {
        read(read_all(device, readings.drop_last()), readings.last())
    }
}

/// Starting the program configures the sensor for the gain that lux values are computed with,
/// clears both threshold windows, turns power saving off, waits for a host and reports.
pub proof fn law_startup(device: Device)
    ensures
        device.act_all(startup_steps()) == (Device {
            registers: device.registers.insert(REG_ALS_CONF, (0x00, 0x10)).insert(
                REG_ALS_WH,
                (0, 0),
            ).insert(REG_ALS_WL, (0, 0)).insert(REG_POW_SAV, (0, 0)),
            host: true,
            output: device.output + Message::Ready.chars(),
            unpolled_ms: 0,
            ..device
        }),
{
    reveal_with_fuel(Device::act_first, 7);
}

/// Nothing is handed to the serial port before a host has configured the device.
pub proof fn law_host_comes_first(device: Device, n: nat)
    requires
        n <= startup_steps().len(),
        !device.act_first(startup_steps(), n).host,
    ensures
        device.act_first(startup_steps(), n).output == device.output,
{
    reveal_with_fuel(Device::act_first, 7);
}

/// The steps of the program keep USB alive: those that start it and make a reading.
pub proof fn law_steps_keep_usb_alive()
    ensures
        keep_usb_alive(startup_steps()),
        keep_usb_alive(reading_steps()),
{
}

/// Over the whole program, USB is never left alone for longer than the time in which the sensor
/// settles and the interval before it.
pub proof fn law_usb_is_polled(device: Device, readings: Seq<nat>)
    requires
        device.longest_unpolled_ms <= SETTLE_MS + POLL_INTERVAL_MS,
    ensures
        read_all(device.act_all(startup_steps()), readings).longest_unpolled_ms <= SETTLE_MS
            + POLL_INTERVAL_MS,
    decreases readings.len(),
{
    law_startup(device);
    if readings.len() > 0 {
        law_usb_is_polled(device, readings.drop_last());
        law_making_a_reading(read_all(device.act_all(startup_steps()), readings.drop_last()));
    }
}

/// The LED shows the last reading, whatever came before: it is on if and only if it was dark.
pub proof fn law_led_shows_the_last_reading(device: Device, readings: Seq<nat>)
    requires
        readings.len() > 0,
    ensures
        read_all(device, readings).led <==> readings.last() < 39,
{
}

/// Each reading is logged, and nothing else.
pub proof fn law_reading_is_logged(device: Device, lux: nat)
    ensures
        read(device, lux).output == device.output + lux_text(lux),
{
    law_making_a_reading(device);
}

} // verus!
