//! AXP2101 power management: supply rails, battery and USB measurements.

use super::{be_u16, last_write, u16_from_be_bytes, Step};
use vstd::prelude::*;

verus! {

pub const ADDR_I2C: u8 = 0x34;

pub const REG_STATUS_2: u8 = 0x01;

pub const REG_ADC_ENABLE: u8 = 0x30;

/// High byte of the battery voltage; the low byte follows.
pub const REG_VBAT_H: u8 = 0x34;

/// High byte of the USB (VBUS) voltage; the low byte follows.
pub const REG_VBUS_H: u8 = 0x38;

pub const REG_LDO_ENABLE: u8 = 0x90;

/// Output voltage of DLDO1, which feeds the LCD backlight.
pub const REG_DLDO1_VOLTAGE: u8 = 0x99;

pub const REG_BATTERY_PERCENT: u8 = 0xa4;

/// The power-up sequence: ALDO1 at 1.8 V, ALDO2..4 and DLDO1 at 3.3 V, all
/// LDOs on, the ADC channels on, then 10 ms for the rails to settle.
pub open spec fn init_sequence() -> Seq<Step> {
    seq![
        Step::Write { reg: 0x92, val: 13 },
        Step::Write { reg: 0x93, val: 28 },
        Step::Write { reg: 0x94, val: 28 },
        Step::Write { reg: 0x95, val: 28 },
        Step::Write { reg: REG_DLDO1_VOLTAGE, val: 28 },
        Step::Write { reg: REG_LDO_ENABLE, val: 0xbf },
        Step::Write { reg: REG_ADC_ENABLE, val: 0x0f },
        Step::DelayMs(10),
    ]
}

pub fn init_steps() -> (steps: Vec<Step>)
    ensures
        steps@ == init_sequence(),
{
    let steps = vec![
        Step::Write { reg: 0x92, val: 13 },
        Step::Write { reg: 0x93, val: 28 },
        Step::Write { reg: 0x94, val: 28 },
        Step::Write { reg: 0x95, val: 28 },
        Step::Write { reg: REG_DLDO1_VOLTAGE, val: 28 },
        Step::Write { reg: REG_LDO_ENABLE, val: 0xbf },
        Step::Write { reg: REG_ADC_ENABLE, val: 0x0f },
        Step::DelayMs(10),
    ];
    assert(steps@ =~= init_sequence());
    steps
}

/// The output of an ALDO or DLDO for a voltage code: 0.5 V plus 100 mV per step.
pub open spec fn ldo_millivolts(code: u8) -> int {
    500 + 100 * code
}

/// The power-up sets ALDO1 to 1.8 V and ALDO2..4 and DLDO1 (the backlight) to
/// 3.3 V, switches ALDO1..4 (LDO enable bits 0..3) and DLDO1 (bit 7) on,
/// enables the four ADC channels (bits 0..3), and then lets the rails settle.
pub proof fn lemma_init_powers_the_rails()
    ensures
        last_write(init_sequence(), 0x92) matches Some(c) && ldo_millivolts(c) == 1800,
        last_write(init_sequence(), 0x93) matches Some(c) && ldo_millivolts(c) == 3300,
        last_write(init_sequence(), 0x94) matches Some(c) && ldo_millivolts(c) == 3300,
        last_write(init_sequence(), 0x95) matches Some(c) && ldo_millivolts(c) == 3300,
        last_write(init_sequence(), REG_DLDO1_VOLTAGE) matches Some(c) && ldo_millivolts(c) == 3300,
        last_write(init_sequence(), REG_LDO_ENABLE) matches Some(v) && v % 16 == 15 && v / 128 == 1,
        last_write(init_sequence(), REG_ADC_ENABLE) matches Some(v) && v % 16 == 15,
        init_sequence().last() matches Step::DelayMs(ms) && ms > 0,
        backlight_voltage_write() matches Step::Write { reg, val } && reg == REG_DLDO1_VOLTAGE
            && ldo_millivolts(val) == 3300,
{
    reveal_with_fuel(last_write, 9);
    let s = init_sequence();
    assert(s.drop_last() =~= s.subrange(0, 7));
    assert(s.subrange(0, 7).drop_last() =~= s.subrange(0, 6));
    assert(s.subrange(0, 6).drop_last() =~= s.subrange(0, 5));
    assert(s.subrange(0, 5).drop_last() =~= s.subrange(0, 4));
    assert(s.subrange(0, 4).drop_last() =~= s.subrange(0, 3));
    assert(s.subrange(0, 3).drop_last() =~= s.subrange(0, 2));
    assert(s.subrange(0, 2).drop_last() =~= s.subrange(0, 1));
}

/// A 14-bit ADC reading in millivolts (1 mV per count) from its two
/// registers, high byte first; the top two bits of the high byte are not
/// part of the value.
pub open spec fn adc_millivolts(hi: u8, lo: u8) -> int {
    be_u16((hi % 64) as u8, lo)
}

/// Decodes an ADC reading (battery at `REG_VBAT_H`, USB at `REG_VBUS_H`).
pub fn decode_adc_mv(regs: [u8; 2]) -> (mv: u16)
    ensures
        mv == adc_millivolts(regs@[0], regs@[1]),
        mv < 16384,
{
    let hi = regs[0];
    assert((hi & 0x3fu8) == hi % 64) by (bit_vector);
    u16_from_be_bytes(hi & 0x3f, regs[1])
}

/// The battery level register read as a signed percentage (0 to 100 in
/// practice; a value above 127 reads as negative, as a cast to `i8` does).
pub open spec fn battery_level_from_register(raw: u8) -> int {
    if raw < 128 {
        raw as int
    } else {
        raw - 256
    }
}

pub fn decode_battery_level(raw: u8) -> (level: i8)
    ensures
        level == battery_level_from_register(raw),
{
    if raw < 128 {
        raw as i8
    } else {
        (raw as i16 - 256) as i8
    }
}

/// The ADC reading ignores the top two bits of its high byte, and every
/// count is one millivolt: the low byte adds its value, each step of the high
/// byte 256 mV.
pub proof fn lemma_adc_reading(hi: u8, lo: u8)
    ensures
        0 <= adc_millivolts(hi, lo) < 16384,
        adc_millivolts((hi % 64) as u8, lo) == adc_millivolts(hi, lo),
        adc_millivolts((hi % 64 + 64) as u8, lo) == adc_millivolts(hi, lo),
        lo < 255 ==> adc_millivolts(hi, (lo + 1) as u8) == adc_millivolts(hi, lo) + 1,
        hi % 64 < 63 ==> adc_millivolts((hi + 1) as u8, lo) == adc_millivolts(hi, lo) + 256,
{
}

/// A battery level within 0..=100 % reads as itself.
pub proof fn lemma_battery_level_in_range(raw: u8)
    requires
        raw <= 100,
    ensures
        battery_level_from_register(raw) == raw,
{
}

/// Whether the second status register reports charging (bit 2).
pub open spec fn charging_from_status(status: u8) -> bool {
    (status / 4) % 2 == 1
}

/// Charging is reported by bit 2 of the status alone: the bits above it and
/// the two below it do not change the answer.
pub proof fn lemma_charging_is_bit_2(status: u8, other: u8)
    ensures
        (status / 4) % 2 == (other / 4) % 2 ==> charging_from_status(status) == charging_from_status(
            other,
        ),
        charging_from_status(status) ==> status >= 4,
        (status % 8) >= 4 <==> charging_from_status(status),
{
}

pub fn decode_charging(status: u8) -> (charging: bool)
    ensures
        charging == charging_from_status(status),
{
    assert(((status & 0x04u8) != 0) == ((status / 4) % 2 == 1)) by (bit_vector);
    status & 0x04 != 0
}

/// The PMIC as seen by the display bring-up.
pub struct Axp2101;

/// DLDO1 at 3.3 V for the backlight.
pub open spec fn backlight_voltage_write() -> Step {
    Step::Write { reg: REG_DLDO1_VOLTAGE, val: 0x1c }
}

impl Axp2101 {
    /// The first step of turning on the backlight: DLDO1 at 3.3 V. Then
    /// `REG_LDO_ENABLE` is read and written back with
    /// `backlight_ldo_enable(value)`.
    pub fn backlight_voltage_step() -> (step: Step)
        ensures
            step == backlight_voltage_write(),
    {
        Step::Write { reg: REG_DLDO1_VOLTAGE, val: 0x1c }
    }

    /// The LDO enable register with DLDO1 (bit 7) switched on and every other
    /// rail left as it was.
    pub fn backlight_ldo_enable(current: u8) -> (next: u8)
        ensures
            next == (current | 0x80u8),
            next / 128 == 1,
            next % 128 == current % 128,
    {
        assert((current | 0x80u8) / 128 == 1 && (current | 0x80u8) % 128 == current % 128)
            by (bit_vector);
        current | 0x80
    }
}

} // verus!
