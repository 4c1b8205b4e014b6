//! FT6336U capacitive touch controller.

use super::{be_u16, u16_from_be_bytes};
use vstd::prelude::*;

verus! {

pub const ADDR_I2C: u8 = 0x38;

/// The first of the five registers read for a touch: touch count, then the
/// first point's X and Y, high byte first.
pub const REG_TD_STATUS: u8 = 0x02;

/// A touched point in screen coordinates.
#[derive(Debug, Clone, Copy, PartialEq, Eq, Structural)]
pub struct TouchPoint {
    pub x: u16,
    pub y: u16,
}

/// The touch reported by the five registers read from `REG_TD_STATUS`: none
/// when the low nibble of the status (the number of touches) is zero, else the
/// first point, whose coordinates are 12 bits (the high nibble of each high
/// byte holds event flags).
pub open spec fn touch_from_registers(regs: Seq<u8>) -> Option<TouchPoint> {
    if regs[0] % 16 == 0 {
        None
    } else {
        Some(
            TouchPoint {
                x: be_u16((regs[1] % 16) as u8, regs[2]) as u16,
                y: be_u16((regs[3] % 16) as u8, regs[4]) as u16,
            },
        )
    }
}

pub fn decode_touch(regs: [u8; 5]) -> (touch: Option<TouchPoint>)
    ensures
        touch == touch_from_registers(regs@),
{
    let status = regs[0];
    let xh = regs[1];
    let yh = regs[3];
    assert((status & 0x0fu8) == status % 16 && (xh & 0x0fu8) == xh % 16 && (yh & 0x0fu8) == yh
        % 16) by (bit_vector);
    if status & 0x0f == 0 {
        return None;
    }
    let x = u16_from_be_bytes(xh & 0x0f, regs[2]);
    let y = u16_from_be_bytes(yh & 0x0f, regs[4]);
    Some(TouchPoint { x, y })
}

/// Reported coordinates fit in 12 bits.
pub proof fn lemma_touch_within_12_bits(regs: Seq<u8>)
    requires
        regs.len() == 5,
        touch_from_registers(regs) is Some,
    ensures
        touch_from_registers(regs)->0.x < 4096,
        touch_from_registers(regs)->0.y < 4096,
{
}

/// A touch is reported exactly when the status counts one; X comes only from
/// registers 1 and 2 and Y only from registers 3 and 4, high byte first, and
/// the event flags in the high nibble of each high byte do not change them.
pub proof fn lemma_touch_fields(regs: Seq<u8>, other: Seq<u8>)
    requires
        regs.len() == 5,
        other.len() == 5,
    ensures
        touch_from_registers(regs) is Some <==> regs[0] % 16 != 0,
        regs[0] % 16 != 0 ==> touch_from_registers(regs)->0.x == (regs[1] % 16) * 256 + regs[2]
            && touch_from_registers(regs)->0.y == (regs[3] % 16) * 256 + regs[4],
        regs[0] % 16 != 0 && other[0] % 16 != 0 && other[1] % 16 == regs[1] % 16 && other[2]
            == regs[2] ==> touch_from_registers(other)->0.x == touch_from_registers(regs)->0.x,
        regs[0] % 16 != 0 && other[0] % 16 != 0 && other[3] % 16 == regs[3] % 16 && other[4]
            == regs[4] ==> touch_from_registers(other)->0.y == touch_from_registers(regs)->0.y,
{
}

} // verus!
