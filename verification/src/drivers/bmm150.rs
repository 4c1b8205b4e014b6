//! BMM150 magnetometer, read through the IMU's auxiliary bus.

use super::le_u16;
use vstd::prelude::*;

verus! {

pub const ADDR_I2C: u8 = 0x10;

pub const REG_CHIP_ID: u8 = 0x40;

pub const REG_RESET: u8 = 0x4b;

pub const REG_CTRL: u8 = 0x4c;

pub const REG_DATA_X_LSB: u8 = 0x42;

/// Soft reset and power on.
pub const RESET_CMD: u8 = 0x83;

/// Normal mode at 30 Hz output data rate.
pub const NORMAL_MODE: u8 = 0x38;

pub const WHO_AM_I: u8 = 0x32;

/// Two bytes, low byte first, read as a two's-complement 16-bit value
/// (`i16::from_le_bytes`).
pub open spec fn le_i16(lo: u8, hi: u8) -> int {
    if le_u16(lo, hi) < 32768 {
        le_u16(lo, hi)
    } else {
        le_u16(lo, hi) - 65536
    }
}

fn i16_from_le_bytes(lo: u8, hi: u8) -> (v: i16)
    ensures
        v == le_i16(lo, hi),
{
    let u: u16 = ((hi as u16) << 8) | (lo as u16);
    assert(u == hi * 256 + lo) by (bit_vector)
        requires
            u == ((hi as u16) << 8u16) | (lo as u16),
    ;
    if u < 32768 {
        u as i16
    } else {
        (u as i32 - 65536) as i16
    }
}

/// The field on each axis from the six data registers: X and Y are 13-bit
/// and Z is 15-bit signed values, left-aligned in their 16-bit register pairs
/// (low byte first); the shifts are arithmetic, rounding towards minus infinity.
pub open spec fn field_from_registers(raw: Seq<u8>) -> (int, int, int) {
    (le_i16(raw[0], raw[1]) / 8, le_i16(raw[2], raw[3]) / 8, le_i16(raw[4], raw[5]) / 2)
}

fn shr(v: i16, bits: u32) -> (r: i16)
    requires
        bits == 1 || bits == 3,
    ensures
        bits == 1 ==> r == v / 2,
        bits == 3 ==> r == v / 8,
{
    let r = v >> bits;
    assert(bits == 1u32 ==> r == v / 2) by (bit_vector)
        requires
            r == v >> bits,
    ;
    assert(bits == 3u32 ==> r == v / 8) by (bit_vector)
        requires
            r == v >> bits,
    ;
    r
}

/// Decodes the six data registers read from `REG_DATA_X_LSB` into X, Y and Z.
pub fn decode(raw: &[u8; 6]) -> (xyz: (i16, i16, i16))
    ensures
        (xyz.0 as int, xyz.1 as int, xyz.2 as int) == field_from_registers(raw@),
{
    let x = shr(i16_from_le_bytes(raw[0], raw[1]), 3);
    let y = shr(i16_from_le_bytes(raw[2], raw[3]), 3);
    let z = shr(i16_from_le_bytes(raw[4], raw[5]), 1);
    (x, y, z)
}

/// X and Y are 13-bit and Z 15-bit signed readings; a reading left-aligned
/// in its register pair (shifted up by 3 for X and Y, by 1 for Z) decodes to
/// itself whatever the unused low bits hold.
pub proof fn lemma_field_ranges_and_alignment(raw: Seq<u8>, v: int, low: int)
    requires
        raw.len() == 6,
    ensures
        -4096 <= field_from_registers(raw).0 <= 4095,
        -4096 <= field_from_registers(raw).1 <= 4095,
        -16384 <= field_from_registers(raw).2 <= 16383,
        -4096 <= v <= 4095 && 0 <= low < 8 && le_i16(raw[0], raw[1]) == v * 8 + low
            ==> field_from_registers(raw).0 == v,
        -16384 <= v <= 16383 && 0 <= low < 2 && le_i16(raw[4], raw[5]) == v * 2 + low
            ==> field_from_registers(raw).2 == v,
{
}

} // verus!
