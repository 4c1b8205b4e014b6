//! Drivers of the chips on the board's internal I2C bus.
//!
//! Each driver states the bytes it sends and decodes the bytes it receives;
//! the bus transfers themselves are made by the caller, which runs the steps
//! that a driver returns in order.

use vstd::prelude::*;

pub mod aw88298;
pub mod aw9523;
pub mod axp2101;
pub mod bm8563;
pub mod bmm150;
pub mod ft6336u;
pub mod ltr553;

verus! {

/// One step of a register sequence on a chip.
#[allow(inconsistent_fields)]
#[derive(Debug, Clone, Copy, PartialEq, Eq, Structural)]
pub enum Step {
    /// Write an 8-bit register: the bus write is `[reg, val]`.
    Write { reg: u8, val: u8 },
    /// Write a 16-bit register, high byte first: the bus write is `[reg, hi, lo]`.
    Write16 { reg: u8, val: u16 },
    /// Busy-wait for this many milliseconds.
    DelayMs(u32),
}

/// The value that the last 8-bit write to `reg` in `steps` leaves in it, if
/// any write to it is there.
pub open spec fn last_write(steps: Seq<Step>, reg: u8) -> Option<u8>
    decreases steps.len(),
{
    if steps.len() == 0 {
        None
    } else {
        match steps.last() {
            Step::Write { reg: r, val } => if r == reg {
                Some(val)
            } else {
                last_write(steps.drop_last(), reg)
            },
            _ => last_write(steps.drop_last(), reg),
        }
    }
}

/// The value that the last 16-bit write to `reg` in `steps` leaves in it, if any.
pub open spec fn last_write16(steps: Seq<Step>, reg: u8) -> Option<u16>
    decreases steps.len(),
{
    if steps.len() == 0 {
        None
    } else {
        match steps.last() {
            Step::Write16 { reg: r, val } => if r == reg {
                Some(val)
            } else {
                last_write16(steps.drop_last(), reg)
            },
            _ => last_write16(steps.drop_last(), reg),
        }
    }
}

/// The bytes of an 8-bit register write.
pub fn write_bytes(reg: u8, val: u8) -> (bytes: [u8; 2])
    ensures
        bytes@ == seq![reg, val],
{
    let bytes = [reg, val];
    assert(bytes@ =~= seq![reg, val]);
    bytes
}

/// The bytes of a 16-bit register write: the register, then the value high byte first.
pub fn write16_bytes(reg: u8, val: u16) -> (bytes: [u8; 3])
    ensures
        bytes@ == seq![reg, (val / 256) as u8, (val % 256) as u8],
{
    let bytes = [reg, (val >> 8) as u8, (val & 0xff) as u8];
    assert((val >> 8u16) == val / 256 && (val & 0xffu16) == val % 256) by (bit_vector);
    assert(bytes@ =~= seq![reg, (val / 256) as u8, (val % 256) as u8]);
    bytes
}

/// A 16-bit value from two bytes, high byte first (`u16::from_be_bytes`).
pub open spec fn be_u16(hi: u8, lo: u8) -> int {
    hi * 256 + lo
}

/// A 16-bit value from two bytes, low byte first (`u16::from_le_bytes`).
pub open spec fn le_u16(lo: u8, hi: u8) -> int {
    hi * 256 + lo
}

pub fn u16_from_be_bytes(hi: u8, lo: u8) -> (v: u16)
    ensures
        v == be_u16(hi, lo),
{
    let v = ((hi as u16) << 8) | (lo as u16);
    assert((((hi as u16) << 8u16) | (lo as u16)) == hi * 256 + lo) by (bit_vector);
    v
}

pub fn u16_from_le_bytes(lo: u8, hi: u8) -> (v: u16)
    ensures
        v == le_u16(lo, hi),
{
    u16_from_be_bytes(hi, lo)
}

} // verus!
