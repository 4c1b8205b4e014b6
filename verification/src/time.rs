//! Wall-clock time as kept by the BM8563 real-time clock, and the packed BCD
//! encoding that the clock uses for its registers.

use crate::text::{decimal, push_char, push_decimal};
use vstd::prelude::*;

verus! {

/// A time of day as read from the RTC.
#[derive(Debug, Clone, Copy, PartialEq, Eq, Structural)]
pub struct Time {
    pub hours: u8,
    pub minutes: u8,
    pub seconds: u8,
}

/// The number of seconds since midnight that `t` denotes.
pub open spec fn total_seconds(t: Time) -> int {
    t.hours * 3600 + t.minutes * 60 + t.seconds
}

/// A time that a clock face can show: hours below 24, minutes and seconds below 60.
pub open spec fn is_clock_time(t: Time) -> bool {
    t.hours < 24 && t.minutes < 60 && t.seconds < 60
}

/// The time as `Display` writes it: `hours:minutes:seconds` in decimal, without padding.
pub open spec fn time_text(t: Time) -> Seq<char> {
    decimal(t.hours as nat) + seq![':'] + decimal(t.minutes as nat) + seq![':'] + decimal(
        t.seconds as nat,
    )
}

impl Time {
    /// The time written as `hours:minutes:seconds`, e.g. `1:2:3`.
    pub fn to_string(&self) -> (s: String)
        ensures
            s@ == time_text(*self),
    {
        let mut s = String::new();
        push_decimal(&mut s, self.hours as u32);
        push_char(&mut s, ':');
        push_decimal(&mut s, self.minutes as u32);
        push_char(&mut s, ':');
        push_decimal(&mut s, self.seconds as u32);
        assert(s@ =~= time_text(*self));
        s
    }

    /// Seconds since midnight.
    pub fn to_total_seconds(&self) -> (r: u32)
        ensures
            r == total_seconds(*self),
    {
        self.hours as u32 * 3600 + self.minutes as u32 * 60 + self.seconds as u32
    }
}

/// The value of a packed BCD byte: the high nibble is the tens digit, the low
/// nibble the units digit.
pub open spec fn bcd_decode(bcd: u8) -> int {
    (bcd / 16) * 10 + bcd % 16
}

/// The packed BCD byte for `dec`: tens digit in the high nibble, units digit in
/// the low nibble. A tens digit above 15 does not fit and loses its high bits.
pub open spec fn bcd_encode(dec: u8) -> int {
    ((dec / 10) * 16) % 256 + dec % 10
}

/// A byte whose two nibbles are both decimal digits.
pub open spec fn is_valid_bcd(bcd: u8) -> bool {
    bcd / 16 <= 9 && bcd % 16 <= 9
}

pub fn bcd_to_dec(bcd: u8) -> (r: u8)
    ensures
        r == bcd_decode(bcd),
{
    assert((bcd >> 4u8) == bcd / 16 && (bcd & 0x0fu8) == bcd % 16) by (bit_vector);
    (bcd >> 4) * 10 + (bcd & 0x0f)
}

pub fn dec_to_bcd(dec: u8) -> (r: u8)
    ensures
        r == bcd_encode(dec),
{
    let tens: u8 = dec / 10;
    let units: u8 = dec % 10;
    assert(((tens << 4u8) | units) == ((tens * 16) % 256 + units) as u8) by (bit_vector)
        requires
            units < 10,
    ;
    (tens << 4) | units
}

/// Every value an RTC field can hold (0 to 99) survives encoding to BCD and
/// decoding back.
pub proof fn lemma_bcd_round_trip(dec: u8)
    requires
        dec <= 99,
    ensures
        is_valid_bcd(bcd_encode(dec) as u8),
        bcd_decode(bcd_encode(dec) as u8) == dec,
{
}

/// Every valid packed BCD byte survives decoding and encoding back.
pub proof fn lemma_bcd_round_trip_from_bcd(bcd: u8)
    requires
        is_valid_bcd(bcd),
    ensures
        bcd_decode(bcd) <= 99,
        bcd_encode(bcd_decode(bcd) as u8) == bcd,
{
}

/// The seconds since midnight of a clock time lie within one day, and two
/// clock times with the same count of seconds are the same time.
pub proof fn lemma_total_seconds_within_day(a: Time, b: Time)
    requires
        is_clock_time(a),
        is_clock_time(b),
    ensures
        0 <= total_seconds(a) < 86400,
        total_seconds(a) == total_seconds(b) ==> a == b,
{
}

} // verus!
