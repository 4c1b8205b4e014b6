//! BM8563 real-time clock: seconds, minutes and hours are three consecutive
//! BCD registers starting at `REG_SECONDS`.

use crate::time::{bcd_decode, bcd_encode, bcd_to_dec, dec_to_bcd, Time};
use vstd::prelude::*;

verus! {

pub const ADDR_I2C: u8 = 0x51;

pub const REG_SECONDS: u8 = 0x02;

/// The time held in the seconds, minutes and hours registers. The top bit of
/// the seconds register (clock integrity) and of the minutes register, and the
/// two top bits of the hours register, are not part of the value.
pub open spec fn time_from_registers(seconds: u8, minutes: u8, hours: u8) -> Time {
    Time {
        hours: bcd_decode(hours % 64) as u8,
        minutes: bcd_decode(minutes % 128) as u8,
        seconds: bcd_decode(seconds % 128) as u8,
    }
}

/// The burst write that sets the clock: the first register, then seconds,
/// minutes and hours in BCD.
pub open spec fn time_write(t: Time) -> Seq<u8> {
    seq![
        REG_SECONDS,
        bcd_encode(t.seconds) as u8,
        bcd_encode(t.minutes) as u8,
        bcd_encode(t.hours) as u8,
    ]
}

/// Decodes the three registers read from `REG_SECONDS` on (seconds, minutes, hours).
pub fn decode_time(regs: [u8; 3]) -> (t: Time)
    ensures
        t == time_from_registers(regs@[0], regs@[1], regs@[2]),
{
    let s = regs[0];
    let m = regs[1];
    let h = regs[2];
    assert((s & 0x7fu8) == s % 128 && (m & 0x7fu8) == m % 128 && (h & 0x3fu8) == h % 64)
        by (bit_vector);
    Time { hours: bcd_to_dec(h & 0x3f), minutes: bcd_to_dec(m & 0x7f), seconds: bcd_to_dec(s & 0x7f) }
}

/// The bytes of the bus write that sets the clock to `time`.
pub fn encode_time(time: Time) -> (bytes: [u8; 4])
    ensures
        bytes@ == time_write(time),
{
    let bytes = [REG_SECONDS, dec_to_bcd(time.seconds), dec_to_bcd(time.minutes), dec_to_bcd(time.hours)];
    assert(bytes@ =~= time_write(time));
    bytes
}

/// A time whose fields the clock registers can hold: hours up to 39, minutes
/// and seconds up to 79 (every clock time qualifies).
pub open spec fn fits_registers(t: Time) -> bool {
    t.hours <= 39 && t.minutes <= 79 && t.seconds <= 79
}

/// Reading the clock right after setting it gives back the time that was set.
pub proof fn lemma_read_after_write(t: Time)
    requires
        fits_registers(t),
    ensures
        time_from_registers(time_write(t)[1], time_write(t)[2], time_write(t)[3]) == t,
{
}

/// Reading the clock ignores the integrity bit of the seconds register, the
/// top bit of the minutes register and the two top bits of the hours
/// register; valid BCD registers read as their decimal values.
pub proof fn lemma_read_ignores_flag_bits(s: u8, m: u8, h: u8)
    ensures
        time_from_registers((s % 128 + 128) as u8, (m % 128 + 128) as u8, (h % 64 + 192) as u8)
            == time_from_registers(s, m, h),
        s < 0x60 && s % 16 <= 9 ==> time_from_registers(s, m, h).seconds == (s / 16) * 10 + s % 16,
        m < 0x60 && m % 16 <= 9 ==> time_from_registers(s, m, h).minutes == (m / 16) * 10 + m % 16,
        h < 0x24 && h % 16 <= 9 ==> time_from_registers(s, m, h).hours == (h / 16) * 10 + h % 16,
{
}

} // verus!
