//! The firmware's reading of the LTR-553 light level, which adds the two
//! channels in 16 bits before halving them.

use crate::drivers::{le_u16, u16_from_le_bytes};
use vstd::prelude::*;

verus! {

/// The light level as the firmware computes it: the sum of the two channels
/// kept to 16 bits (it wraps past 65535), then halved.
pub open spec fn als_wrapping(regs: Seq<u8>) -> int {
    ((le_u16(regs[0], regs[1]) + le_u16(regs[2], regs[3])) % 65536) / 2
}

/// Decodes the four registers read from the first ALS data register
/// (channel 1 then channel 0, low byte first).
pub fn decode_als(regs: [u8; 4]) -> (lux: u16)
    ensures
        lux == als_wrapping(regs@),
{
    let ch1 = u16_from_le_bytes(regs[0], regs[1]);
    let ch0 = u16_from_le_bytes(regs[2], regs[3]);
    let sum: u32 = ch1 as u32 + ch0 as u32;
    let kept: u16 = (sum % 65536) as u16;
    kept / 2
}

/// When the channels add up to less than 65536, the firmware's reading is the
/// mean of the two channels, as the board's driver computes it; above, it wraps.
pub proof fn lemma_wrapping_agrees_below_overflow(regs: Seq<u8>)
    requires
        regs.len() == 4,
        le_u16(regs[0], regs[1]) + le_u16(regs[2], regs[3]) < 65536,
    ensures
        als_wrapping(regs) == crate::drivers::ltr553::als_from_registers(regs),
{
}

} // verus!
