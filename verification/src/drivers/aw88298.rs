//! AW88298 I2S audio amplifier. Its registers are 16 bits wide and are
//! written high byte first.

use super::{be_u16, last_write16, u16_from_be_bytes, Step};
use crate::error::{Error, ErrorKind};
use vstd::prelude::*;

verus! {

pub const ADDR_I2C: u8 = 0x36;

/// The value of `REG_ID` on a present chip.
pub const CHIP_ID: u16 = 0x1852;

pub const REG_ID: u8 = 0x00;

pub const REG_SYSCTRL: u8 = 0x04;

pub const REG_SYSCTRL2: u8 = 0x05;

pub const REG_I2SCTRL: u8 = 0x06;

pub const REG_HAGCCFG4: u8 = 0x0c;

pub const REG_BSTCTRL2: u8 = 0x61;

/// Hard-mute bit of `REG_SYSCTRL2`.
pub const SYSCTRL2_HMUTE: u16 = 0x10;

/// The attenuation at volume 0: -96 dB (0 is 0 dB).
pub const VOL_MIN_ATTENUATION: u16 = 0xc0;

/// The sample rates the I2S interface supports; the I2SSR field of
/// `REG_I2SCTRL` is the position in this table.
pub const SAMPLE_RATES: [u32; 10] = [8000, 11025, 12000, 16000, 22050, 24000, 32000, 44100, 48000, 96000];

/// Whether `rate` is one of the supported sample rates.
pub open spec fn is_supported_rate(rate: u32) -> bool {
    exists|i: int| 0 <= i < 10 && SAMPLE_RATES@[i] == rate
}

/// The I2SSR code of a sample rate: its position in `SAMPLE_RATES`, or an
/// invalid-argument error noting an unsupported sample rate.
pub fn sample_rate_index(rate: u32) -> (r: Result<u16, Error>)
    ensures
        is_supported_rate(rate) <==> r is Ok,
        r matches Ok(i) ==> i < 10 && SAMPLE_RATES@[i as int] == rate,
        r matches Err(e) ==> e.kind_of() == ErrorKind::InvalidArgument && e.context_of() == Some(
            "unsupported sample rate"@,
        ),
{
    let rates = SAMPLE_RATES;
    let mut i: usize = 0;
    while i < 10
        invariant
            rates@ == SAMPLE_RATES@,
            i <= 10,
            forall|j: int| 0 <= j < i ==> rates@[j] != rate,
        decreases 10 - i,
    {
        if rates[i] == rate {
            return Ok(i as u16);
        }
        i += 1;
    }
    Err(Error::new(ErrorKind::InvalidArgument).with_context("unsupported sample rate"))
}

/// Accepts the value read from `REG_ID` if it identifies the chip; otherwise a
/// not-initialised error noting that the amplifier was not found.
pub fn check_chip_id(id: u16) -> (r: Result<(), Error>)
    ensures
        r is Ok <==> id == CHIP_ID,
        r matches Err(e) ==> e.kind_of() == ErrorKind::NotInitialized && e.context_of() == Some(
            "AW88298 not found"@,
        ),
{
    if id != CHIP_ID {
        return Err(Error::new(ErrorKind::NotInitialized).with_context("AW88298 not found"));
    }
    Ok(())
}

/// `REG_SYSCTRL` with the I2S interface and the amplifier on (I2SEN=1,
/// AMPPD=0, PWDN=0) or both off (I2SEN=0, AMPPD=1, PWDN=1).
pub open spec fn enabled_write(enabled: bool) -> Step {
    Step::Write16 { reg: REG_SYSCTRL, val: if enabled { 0x4040 } else { 0x4003 } }
}

pub fn set_enabled(enabled: bool) -> (step: Step)
    ensures
        step == enabled_write(enabled),
{
    if enabled {
        Step::Write16 { reg: REG_SYSCTRL, val: 0x4040 }
    } else {
        Step::Write16 { reg: REG_SYSCTRL, val: 0x4003 }
    }
}

/// The attenuation for a volume: 0 dB at 255, falling linearly (rounded
/// down) to -96 dB (0xc0) at 0.
pub open spec fn attenuation(volume: u8) -> int {
    (255 - volume) * 0xc0 / 255
}

/// `REG_HAGCCFG4` for a volume: the attenuation in the high byte, 0x64 in the low byte.
pub open spec fn volume_write(volume: u8) -> Step {
    Step::Write16 { reg: REG_HAGCCFG4, val: (attenuation(volume) * 256 + 0x64) as u16 }
}

/// The register write that sets the volume: 0 is -96 dB, 255 is 0 dB.
pub fn set_volume(volume: u8) -> (step: Step)
    ensures
        step == volume_write(volume),
{
    let level: u16 = (255 - volume) as u16;
    assert(level * 0xc0 <= 255 * 0xc0) by (nonlinear_arith)
        requires
            level <= 255,
    ;
    let att: u16 = level * VOL_MIN_ATTENUATION / 255;
    assert(att <= 0xc0) by (nonlinear_arith)
        requires
            level <= 255,
            att == level * 0xc0 / 255,
    ;
    assert(((att << 8u16) | 0x64u16) == att * 256 + 0x64) by (bit_vector)
        requires
            att <= 0xc0,
    ;
    Step::Write16 { reg: REG_HAGCCFG4, val: (att << 8) | 0x64 }
}

/// The attenuation never exceeds -96 dB, is 0 dB at full volume, and does
/// not grow as the volume rises.
pub proof fn lemma_attenuation_range(v: u8, w: u8)
    ensures
        0 <= attenuation(v) <= 0xc0,
        attenuation(255) == 0,
        attenuation(0) == 0xc0,
        v <= w ==> attenuation(w) <= attenuation(v),
{
    assert(0 <= (255 - v) * 0xc0 <= 255 * 0xc0) by (nonlinear_arith)
        requires
            v <= 255,
    ;
    assert(v <= w ==> (255 - w) * 0xc0 <= (255 - v) * 0xc0) by (nonlinear_arith);
    if v <= w {
        vstd::arithmetic::div_mod::lemma_div_is_ordered((255 - w) * 0xc0, (255 - v) * 0xc0, 255);
    }
}

/// `REG_SYSCTRL2` as read, with only the hard-mute bit set or cleared.
pub open spec fn muted_value(current: u16, mute: bool) -> u16 {
    if mute {
        current | SYSCTRL2_HMUTE
    } else {
        current & !SYSCTRL2_HMUTE
    }
}

/// The write that mutes or unmutes, given the current `REG_SYSCTRL2`.
pub fn set_mute(current: u16, mute: bool) -> (step: Step)
    ensures
        step == (Step::Write16 { reg: REG_SYSCTRL2, val: muted_value(current, mute) }),
{
    let val = if mute {
        current | SYSCTRL2_HMUTE
    } else {
        current & !SYSCTRL2_HMUTE
    };
    Step::Write16 { reg: REG_SYSCTRL2, val }
}

/// Muting sets the hard-mute bit and unmuting clears it; no other bit changes,
/// so unmuting a muted register restores it when the bit was clear before.
pub proof fn lemma_mute_touches_only_hmute(current: u16, mute: bool)
    ensures
        (muted_value(current, mute) & SYSCTRL2_HMUTE != 0) == mute,
        muted_value(current, mute) & !SYSCTRL2_HMUTE == current & !SYSCTRL2_HMUTE,
        current & SYSCTRL2_HMUTE == 0 ==> muted_value(muted_value(current, true), false) == current,
{
    let m = muted_value(current, true);
    let u = muted_value(current, false);
    assert(m == current | 0x10u16);
    assert(u == current & !0x10u16);
    assert((m & 0x10u16 != 0) && (u & 0x10u16 == 0)) by (bit_vector)
        requires
            m == current | 0x10u16,
            u == current & !0x10u16,
    ;
    assert(m & !0x10u16 == current & !0x10u16 && u & !0x10u16 == current & !0x10u16) by (bit_vector)
        requires
            m == current | 0x10u16,
            u == current & !0x10u16,
    ;
    assert(current & 0x10u16 == 0 ==> (m & !0x10u16) == current) by (bit_vector)
        requires
            m == current | 0x10u16,
    ;
}

/// A register value from the two bytes read, high byte first.
pub fn decode_register(regs: [u8; 2]) -> (val: u16)
    ensures
        val == be_u16(regs@[0], regs@[1]),
{
    u16_from_be_bytes(regs[0], regs[1])
}

/// The writes that bring the amplifier up once the chip ID has been checked:
/// boost off, amplifier powered down, no AGC, DC correction or mute, I2S in
/// Philips format with 16-bit stereo at the given rate code, and full volume.
pub open spec fn init_sequence(rate_index: u16) -> Seq<Step> {
    seq![
        Step::Write16 { reg: REG_BSTCTRL2, val: 0x0673 },
        enabled_write(false),
        Step::Write16 { reg: REG_SYSCTRL2, val: 0x0008 },
        Step::Write16 { reg: REG_I2SCTRL, val: (0x14c0 + rate_index) as u16 },
        volume_write(255),
    ]
}

pub fn init_steps(rate_index: u16) -> (steps: Vec<Step>)
    requires
        rate_index < 10,
    ensures
        steps@ == init_sequence(rate_index),
{
    assert((0x14c0u16 | rate_index) == 0x14c0 + rate_index) by (bit_vector)
        requires
            rate_index < 10,
    ;
    let steps = vec![
        Step::Write16 { reg: REG_BSTCTRL2, val: 0x0673 },
        set_enabled(false),
        Step::Write16 { reg: REG_SYSCTRL2, val: 0x0008 },
        Step::Write16 { reg: REG_I2SCTRL, val: 0x14c0 | rate_index },
        set_volume(u8::MAX),
    ];
    assert(steps@ =~= init_sequence(rate_index));
    steps
}

/// Switching on sets the I2S interface on (SYSCTRL bit 6) and clears the
/// amplifier power-down (bit 1) and chip power-down (bit 0); switching off
/// does the opposite.
pub proof fn lemma_enable_bits(enabled: bool)
    ensures
        enabled_write(enabled) matches Step::Write16 { reg, val } && reg == REG_SYSCTRL && ((val
            / 64) % 2 == 1) == enabled && (val / 2) % 2 == (if enabled {
            0int
        } else {
            1int
        }) && val % 2 == (if enabled {
            0int
        } else {
            1int
        }),
{
}

/// The volume write holds the attenuation in its high byte, 0x64 in the low
/// byte: full volume is 0 dB, volume 0 is -96 dB (0xc0).
pub proof fn lemma_volume_register(volume: u8)
    ensures
        volume_write(volume) matches Step::Write16 { reg, val } && reg == REG_HAGCCFG4 && val / 256
            == attenuation(volume) && val % 256 == 0x64,
        volume == 255 ==> volume_write(volume) == (Step::Write16 { reg: REG_HAGCCFG4, val: 0x0064 }),
        volume == 0 ==> volume_write(volume) == (Step::Write16 { reg: REG_HAGCCFG4, val: 0xc064 }),
{
    assert(0 <= (255 - volume) * 0xc0 <= 255 * 0xc0) by (nonlinear_arith)
        requires
            volume <= 255,
    ;
}

/// After bring-up the I2S interface runs at the requested rate: the I2SSR
/// field (the low four bits of I2SCTRL) is the rate's position in
/// `SAMPLE_RATES`, over the Philips 16-bit stereo format bits 0x14c0. The
/// amplifier is left powered down, unmuted, and at 0 dB.
pub proof fn lemma_init_selects_sample_rate(rate: u32, rate_index: u16)
    requires
        rate_index < 10,
        SAMPLE_RATES@[rate_index as int] == rate,
    ensures
        last_write16(init_sequence(rate_index), REG_I2SCTRL) matches Some(v) && v % 16 == rate_index
            && v / 16 == 0x14c && SAMPLE_RATES@[(v % 16) as int] == rate,
        last_write16(init_sequence(rate_index), REG_SYSCTRL) matches Some(v) && v % 2 == 1 && (v / 2)
            % 2 == 1 && (v / 64) % 2 == 0,
        last_write16(init_sequence(rate_index), REG_SYSCTRL2) matches Some(v) && (v / 16) % 2 == 0,
        last_write16(init_sequence(rate_index), REG_HAGCCFG4) matches Some(v) && v / 256 == 0,
{
    reveal_with_fuel(last_write16, 6);
    let s = init_sequence(rate_index);
    assert(s.drop_last() =~= s.subrange(0, 4));
    assert(s.subrange(0, 4).drop_last() =~= s.subrange(0, 3));
    assert(s.subrange(0, 3).drop_last() =~= s.subrange(0, 2));
    assert(s.subrange(0, 2).drop_last() =~= s.subrange(0, 1));
    assert(attenuation(255) == 0);
}

} // verus!
