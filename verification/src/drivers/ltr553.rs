//! LTR-553ALS-WA ambient light and proximity sensor.

use super::{last_write, le_u16, u16_from_le_bytes, Step};
use vstd::prelude::*;

verus! {

pub const ADDR_I2C: u8 = 0x23;

pub const REG_ALS_CONTR: u8 = 0x80;

pub const REG_PS_CONTR: u8 = 0x81;

pub const REG_PS_LED: u8 = 0x82;

pub const REG_PS_N_PULSES: u8 = 0x83;

pub const REG_PS_MEAS_RATE: u8 = 0x84;

pub const REG_ALS_MEAS_RATE: u8 = 0x85;

/// First of the four ALS data registers: channel 1 then channel 0, low byte first.
pub const REG_ALS_DATA_CH1_0: u8 = 0x88;

/// Low byte of the proximity count; the high byte follows.
pub const REG_PS_DATA_0: u8 = 0x8d;

/// The power-up sequence: both sensors in standby, the proximity LED at
/// 60 kHz, 100 % duty, 50 mA with one pulse and a 100 ms rate, the light
/// sensor at 100 ms integration and 500 ms rate, then both active (light
/// sensor at gain 1), and 600 ms for the first readings.
pub open spec fn init_sequence() -> Seq<Step> {
    seq![
        Step::Write { reg: REG_ALS_CONTR, val: 0x00 },
        Step::Write { reg: REG_PS_CONTR, val: 0x00 },
        Step::Write { reg: REG_PS_LED, val: 0x7f },
        Step::Write { reg: REG_PS_N_PULSES, val: 0x01 },
        Step::Write { reg: REG_PS_MEAS_RATE, val: 0x02 },
        Step::Write { reg: REG_ALS_MEAS_RATE, val: 0x03 },
        Step::Write { reg: REG_ALS_CONTR, val: 0x01 },
        Step::Write { reg: REG_PS_CONTR, val: 0x02 },
        Step::DelayMs(600),
    ]
}

pub fn init_steps() -> (steps: Vec<Step>)
    ensures
        steps@ == init_sequence(),
{
    let steps = vec![
        Step::Write { reg: REG_ALS_CONTR, val: 0x00 },
        Step::Write { reg: REG_PS_CONTR, val: 0x00 },
        Step::Write { reg: REG_PS_LED, val: 0x7f },
        Step::Write { reg: REG_PS_N_PULSES, val: 0x01 },
        Step::Write { reg: REG_PS_MEAS_RATE, val: 0x02 },
        Step::Write { reg: REG_ALS_MEAS_RATE, val: 0x03 },
        Step::Write { reg: REG_ALS_CONTR, val: 0x01 },
        Step::Write { reg: REG_PS_CONTR, val: 0x02 },
        Step::DelayMs(600),
    ];
    assert(steps@ =~= init_sequence());
    steps
}

/// The power-up leaves both sensors measuring: the light sensor active
/// (ALS_CONTR bit 0 set) at gain 1 (bits 4..2 clear) and not in reset (bit 1
/// clear), the proximity sensor active (PS_CONTR bit 1 set), with 100 ms
/// integration and a 500 ms rate for light; it starts from standby and waits
/// at least one light measurement period before the first reading.
pub proof fn lemma_init_activates_both_sensors()
    ensures
        init_sequence()[0] matches Step::Write { reg, val } && reg == REG_ALS_CONTR && val % 2 == 0,
        init_sequence()[1] matches Step::Write { reg, val } && reg == REG_PS_CONTR && (val / 2) % 2
            == 0,
        last_write(init_sequence(), REG_ALS_CONTR) matches Some(v) && v % 2 == 1 && (v / 2) % 2
            == 0 && (v / 4) % 8 == 0,
        last_write(init_sequence(), REG_PS_CONTR) matches Some(v) && (v / 2) % 2 == 1,
        last_write(init_sequence(), REG_ALS_MEAS_RATE) matches Some(v) && (v / 8) % 8 == 0 && v % 8
            == 3,
        init_sequence().last() matches Step::DelayMs(ms) && ms >= 500,
{
    reveal_with_fuel(last_write, 10);
    let s = init_sequence();
    assert(s.drop_last()[7] == s[7]);
    assert(s.drop_last().drop_last() =~= s.subrange(0, 7));
    assert(s.drop_last().drop_last().drop_last() =~= s.subrange(0, 6));
    assert(s.subrange(0, 6).drop_last() =~= s.subrange(0, 5));
    assert(s.subrange(0, 5).drop_last() =~= s.subrange(0, 4));
    assert(s.subrange(0, 4).drop_last() =~= s.subrange(0, 3));
}

/// The ambient light level: the mean of the two channels, rounded down.
pub open spec fn als_from_registers(regs: Seq<u8>) -> int {
    (le_u16(regs[0], regs[1]) + le_u16(regs[2], regs[3])) / 2
}

/// Decodes the four registers read from `REG_ALS_DATA_CH1_0`.
pub fn decode_als(regs: [u8; 4]) -> (lux: u16)
    ensures
        lux == als_from_registers(regs@),
{
    let ch1 = u16_from_le_bytes(regs[0], regs[1]) as u32;
    let ch0 = u16_from_le_bytes(regs[2], regs[3]) as u32;
    ((ch0 + ch1) / 2) as u16
}

/// The light level lies between the two channel readings, and equals them
/// when they agree.
pub proof fn lemma_als_between_channels(regs: Seq<u8>)
    requires
        regs.len() == 4,
    ensures
        ({
            let ch1 = le_u16(regs[0], regs[1]);
            let ch0 = le_u16(regs[2], regs[3]);
            &&& (if ch0 <= ch1 {
                ch0
            } else {
                ch1
            }) <= als_from_registers(regs) <= (if ch0 <= ch1 {
                ch1
            } else {
                ch0
            })
            &&& ch0 == ch1 ==> als_from_registers(regs) == ch0
        }),
{
}

/// The proximity count: 11 bits of the two data registers.
pub open spec fn proximity_from_registers(lo: u8, hi: u8) -> int {
    le_u16(lo, hi) % 2048
}

/// Decodes the proximity data registers (`REG_PS_DATA_0` and the next one).
pub fn decode_proximity(lo: u8, hi: u8) -> (count: u16)
    ensures
        count == proximity_from_registers(lo, hi),
        count < 2048,
{
    let v = u16_from_le_bytes(lo, hi);
    assert((v & 0x07ffu16) == v % 2048) by (bit_vector);
    v & 0x07ff
}

/// The proximity count is the low byte plus the low three bits of the high
/// byte times 256; the high byte's top five bits do not count.
pub proof fn lemma_proximity_bits(lo: u8, hi: u8)
    ensures
        proximity_from_registers(lo, hi) == lo + (hi % 8) * 256,
        proximity_from_registers(lo, (hi % 8) as u8) == proximity_from_registers(lo, hi),
{
}

} // verus!
