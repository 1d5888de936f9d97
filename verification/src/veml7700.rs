//! The VEML7700 ambient light sensor: its registers, and lux values from its counts.

use vstd::prelude::*;

verus! {

/// I2C address of the sensor.
pub const VEML7700_ADDR: u8 = 0x10;

/// Register of the configuration.
pub const REG_ALS_CONF: u8 = 0x00;

/// Register of the high threshold window.
pub const REG_ALS_WH: u8 = 0x01;

/// Register of the low threshold window.
pub const REG_ALS_WL: u8 = 0x02;

/// Register of the power saving mode.
pub const REG_POW_SAV: u8 = 0x03;

/// Register of the ambient light count.
pub const REG_ALS: u8 = 0x04;

/// Configuration for an integration time of 100 ms and a gain of 1/8, low byte first.
pub const VEML_CONF: [u8; 2] = [0x00, 0x10];

/// Lux per count with that configuration, 0.4608, in units of `1 / GAIN_DIVISOR`.
pub const GAIN_SCALED: u32 = 4608;

/// The unit of `GAIN_SCALED`.
pub const GAIN_DIVISOR: u32 = 10000;

/// Time that the sensor is given to settle before a reading, in milliseconds.
pub const SETTLE_MS: u32 = 40;

/// A write to a register of the sensor.
#[derive(Clone, Copy, Debug, PartialEq, Eq, Structural)]
pub struct RegisterWrite {
    pub register: u8,
    pub low: u8,
    pub high: u8,
}

impl RegisterWrite {
    /// Returns the bytes that go to `VEML7700_ADDR`: the register, then its low and high byte.
    pub fn bytes(&self) -> (bytes: [u8; 3])
        ensures
            bytes@ == seq![self.register, self.low, self.high],
    {
        [self.register, self.low, self.high]
    }
}

/// The writes that set the sensor up: integration time and gain, both threshold windows
/// cleared, and power saving off.
pub open spec fn init_writes() -> Seq<RegisterWrite> {
    seq![
        RegisterWrite { register: REG_ALS_CONF, low: VEML_CONF[0], high: VEML_CONF[1] },
        RegisterWrite { register: REG_ALS_WH, low: 0, high: 0 },
        RegisterWrite { register: REG_ALS_WL, low: 0, high: 0 },
        RegisterWrite { register: REG_POW_SAV, low: 0, high: 0 },
    ]
}

/// Returns the writes that set the sensor up, in the order in which they are made.
pub fn veml7700_init() -> (writes: [RegisterWrite; 4])
    ensures
        writes@ == init_writes(),
{
    [
        RegisterWrite { register: REG_ALS_CONF, low: VEML_CONF[0], high: VEML_CONF[1] },
        RegisterWrite { register: REG_ALS_WH, low: 0x00, high: 0x00 },
        RegisterWrite { register: REG_ALS_WL, low: 0x00, high: 0x00 },
        RegisterWrite { register: REG_POW_SAV, low: 0x00, high: 0x00 },
    ]
}

/// Returns the bytes that ask the sensor at `VEML7700_ADDR` for the light: the register of the
/// ambient light count. The sensor answers with two bytes.
pub fn light_request() -> (bytes: [u8; 1])
    ensures
        bytes@ == seq![REG_ALS],
{
    [REG_ALS]
}

/// Returns the buffer for the sensor's answer to `light_request`, as it is before the sensor
/// answers: two zeros.
pub fn light_reply() -> (buf: [u8; 2])
    ensures
        buf@ == seq![0u8, 0u8],
{
    [0u8; 2]
}

/// The count in the two bytes of the ambient light register, low byte first.
pub open spec fn raw_count(bytes: Seq<u8>) -> nat {
    (bytes[0] + 256 * bytes[1]) as nat
}

/// Whether `lux` is the integer nearest to the light that `raw` counts stand for; the higher
/// of two that are equally near.
pub open spec fn is_nearest_lux(raw: nat, lux: int) -> bool {
    let error = lux * GAIN_DIVISOR - raw * GAIN_SCALED;
    -(GAIN_DIVISOR as int) < 2 * error <= GAIN_DIVISOR
}

/// Returns the lux value of a reading, which is the two bytes that the sensor answers to
/// `light_request`.
pub fn veml7700_read_lux(buf: [u8; 2]) -> (lux: u32)
    ensures
        is_nearest_lux(raw_count(buf@), lux as int),
        -10000 < 2 * (10000 * lux - 4608 * (buf[0] + 256 * buf[1])) <= 10000,
        lux <= 30199,
{
    let raw: u32 = buf[0] as u32 + buf[1] as u32 * 256;
    (raw * GAIN_SCALED + GAIN_DIVISOR / 2) / GAIN_DIVISOR
}

/// A reading that the sensor does not answer counts as darkness: the buffer as it was is no
/// light at all.
pub proof fn law_no_answer_is_dark(buf: Seq<u8>, lux: int)
    requires
        buf == seq![0u8, 0u8],
        is_nearest_lux(raw_count(buf), lux),
    ensures
        lux == 0,
{
}

/// The lux value of a count is off by at most half a lux from 0.4608 lux for each count, and by
/// half a lux only upwards.
pub proof fn law_lux_is_off_by_half_at_most(bytes: Seq<u8>, lux: int)
    requires
        bytes.len() == 2,
    ensures
        is_nearest_lux(raw_count(bytes), lux) <==> -5000 < 10000 * lux - 4608 * (bytes[0] + 256
            * bytes[1]) <= 5000,
{
}

/// A count stands for one lux value only.
pub proof fn law_nearest_lux_is_unique(raw: nat, a: int, b: int)
    requires
        is_nearest_lux(raw, a),
        is_nearest_lux(raw, b),
    ensures
        a == b,
{
}

/// More counts never read as less light.
pub proof fn law_lux_is_monotonic(raw1: nat, raw2: nat, lux1: int, lux2: int)
    requires
        raw1 <= raw2,
        is_nearest_lux(raw1, lux1),
        is_nearest_lux(raw2, lux2),
    ensures
        lux1 <= lux2,
{
}

} // verus!
