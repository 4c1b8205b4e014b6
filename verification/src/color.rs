//! Conversion of the camera's YCbCr pixels to the display's RGB565 colours.

use embedded_graphics::pixelcolor::IntoStorage;
use vstd::prelude::*;

verus! {

/// The bit layout of an RGB565 colour: red in bits 15..11, green in bits
/// 10..5, blue in bits 4..0; channel values too large for their field lose
/// their high bits.
pub open spec fn rgb565_pack(r: u8, g: u8, b: u8) -> u16 {
    ((((r & 0x1f) as u16) << 11u16) | (((g & 0x3f) as u16) << 5u16) | ((b & 0x1f) as u16)) as u16
}

/// `embedded_graphics::pixelcolor::Rgb565::new` followed by `into_storage`:
/// the colour's 16-bit storage is the channels masked to 5, 6 and 5 bits and
/// packed red-high, as the crate's source writes it.
#[verifier::external_body]
fn rgb565_storage(r: u8, g: u8, b: u8) -> (raw: u16)
    ensures
        raw == rgb565_pack(r, g, b),
{
    embedded_graphics::pixelcolor::Rgb565::new(r, g, b).into_storage()
}

/// In the packed colour red takes the top five bits, green the next six and
/// blue the low five, each channel keeping only its low bits.
pub proof fn lemma_pack_layout(r: u8, g: u8, b: u8)
    ensures
        rgb565_pack(r, g, b) / 2048 == r % 32,
        (rgb565_pack(r, g, b) / 32) % 64 == g % 64,
        rgb565_pack(r, g, b) % 32 == b % 32,
{
    let p = rgb565_pack(r, g, b);
    assert(p / 2048 == r % 32 && (p / 32) % 64 == g % 64 && p % 32 == b % 32) by (bit_vector)
        requires
            p == ((((r & 0x1f) as u16) << 11u16) | (((g & 0x3f) as u16) << 5u16) | ((b & 0x1f) as u16)) as u16,
    ;
}

/// A 16-bit colour in the layout of `embedded_graphics::pixelcolor::Rgb565`.
#[derive(Debug, Clone, Copy, PartialEq, Eq, Structural)]
pub struct Rgb565 {
    raw: u16,
}

impl View for Rgb565 {
    type V = u16;

    closed spec fn view(&self) -> u16 {
        self.raw
    }
}

pub open spec fn red_of(raw: u16) -> u8 {
    ((raw >> 11u16) & 0x1f) as u8
}

pub open spec fn green_of(raw: u16) -> u8 {
    ((raw >> 5u16) & 0x3f) as u8
}

pub open spec fn blue_of(raw: u16) -> u8 {
    (raw & 0x1f) as u8
}

impl Rgb565 {
    /// A colour from its channels; bits above a channel's width are dropped.
    pub fn new(r: u8, g: u8, b: u8) -> (c: Rgb565)
        ensures
            c@ == rgb565_pack(r, g, b),
            red_of(c@) == r & 0x1f,
            green_of(c@) == g & 0x3f,
            blue_of(c@) == b & 0x1f,
    {
        let raw = rgb565_storage(r, g, b);
        assert(red_of(rgb565_pack(r, g, b)) == r & 0x1f && green_of(rgb565_pack(r, g, b)) == g
            & 0x3f && blue_of(rgb565_pack(r, g, b)) == b & 0x1f) by (bit_vector);
        Rgb565 { raw }
    }

    /// The colour whose 16-bit storage is `raw`.
    pub fn from_storage(raw: u16) -> (c: Rgb565)
        ensures
            c@ == raw,
    {
        Rgb565 { raw }
    }

    /// The 16-bit storage of the colour.
    pub fn into_storage(&self) -> (raw: u16)
        ensures
            raw == self@,
    {
        self.raw
    }

    /// The red channel, 0 to 31.
    pub fn r(&self) -> (v: u8)
        ensures
            v == red_of(self@),
            v <= 31,
    {
        let raw = self.raw;
        assert(((raw >> 11u16) & 0x1f) <= 31) by (bit_vector);
        ((raw >> 11) & 0x1f) as u8
    }

    /// The green channel, 0 to 63.
    pub fn g(&self) -> (v: u8)
        ensures
            v == green_of(self@),
            v <= 63,
    {
        let raw = self.raw;
        assert(((raw >> 5u16) & 0x3f) <= 63) by (bit_vector);
        ((raw >> 5) & 0x3f) as u8
    }

    /// The blue channel, 0 to 31.
    pub fn b(&self) -> (v: u8)
        ensures
            v == blue_of(self@),
            v <= 31,
    {
        let raw = self.raw;
        assert((raw & 0x1f) <= 31) by (bit_vector);
        (raw & 0x1f) as u8
    }
}

/// `v` limited to the range of a byte.
pub open spec fn clamp_to_byte(v: int) -> int {
    if v < 0 {
        0
    } else if v > 255 {
        255
    } else {
        v
    }
}

/// The 8-bit red level of a YCbCr pixel (BT.601 in fixed point, 8 fraction bits).
pub open spec fn yuv_red(y: u8, cb: u8, cr: u8) -> int {
    clamp_to_byte(y + (359 * (cr - 128)) / 256)
}

/// The 8-bit green level of a YCbCr pixel.
pub open spec fn yuv_green(y: u8, cb: u8, cr: u8) -> int {
    clamp_to_byte(y - (88 * (cb - 128) + 183 * (cr - 128)) / 256)
}

/// The 8-bit blue level of a YCbCr pixel.
pub open spec fn yuv_blue(y: u8, cb: u8, cr: u8) -> int {
    clamp_to_byte(y + (454 * (cb - 128)) / 256)
}

fn clamp_byte(v: i32) -> (r: u8)
    ensures
        r == clamp_to_byte(v as int),
{
    if v < 0 {
        0
    } else if v > 255 {
        255
    } else {
        v as u8
    }
}

/// `v >> 8` on a signed value: division by 256 rounding towards minus infinity.
fn shr8(v: i32) -> (r: i32)
    ensures
        r == v / 256,
{
    let r = v >> 8u32;
    assert(r == v / 256) by (bit_vector)
        requires
            r == v >> 8u32,
    ;
    r
}

/// Converts a YCbCr pixel from the camera to an RGB565 colour: each channel
/// is computed in 8 bits, clamped (not wrapped) to 0..=255, and then reduced to
/// 5, 6 and 5 bits.
pub fn yuv_to_rgb565(y: u8, cb: u8, cr: u8) -> (c: Rgb565)
    ensures
        red_of(c@) == yuv_red(y, cb, cr) / 8,
        green_of(c@) == yuv_green(y, cb, cr) / 4,
        blue_of(c@) == yuv_blue(y, cb, cr) / 8,
{
    let y = y as i32;
    let cb = cb as i32 - 128;
    let cr = cr as i32 - 128;

    let r = clamp_byte(y + shr8(359 * cr));
    let g = clamp_byte(y - shr8(88 * cb + 183 * cr));
    let b = clamp_byte(y + shr8(454 * cb));

    assert((r >> 3u8) & 0x1f == r / 8 && (g >> 2u8) & 0x3f == g / 4 && (b >> 3u8) & 0x1f == b / 8)
        by (bit_vector);
    Rgb565::new(r >> 3, g >> 2, b >> 3)
}

/// With neutral chroma (`cb == cr == 128`) every channel follows the luma:
/// the colour is a grey.
pub proof fn lemma_neutral_chroma_is_gray(y: u8)
    ensures
        yuv_red(y, 128, 128) == y,
        yuv_green(y, 128, 128) == y,
        yuv_blue(y, 128, 128) == y,
{
}

/// Each channel stays within 0..=255 whatever the inputs: out-of-range results
/// saturate instead of wrapping around. With `r`, `g` and `b` the unclamped
/// BT.601 levels, each channel is 255 above the range, 0 below it, and the
/// level itself inside it.
pub proof fn lemma_channels_saturate(y: u8, cb: u8, cr: u8)
    ensures
        0 <= yuv_red(y, cb, cr) <= 255,
        0 <= yuv_green(y, cb, cr) <= 255,
        0 <= yuv_blue(y, cb, cr) <= 255,
        ({
            let r = y + (359 * (cr - 128)) / 256;
            &&& r > 255 ==> yuv_red(y, cb, cr) == 255
            &&& r < 0 ==> yuv_red(y, cb, cr) == 0
            &&& 0 <= r <= 255 ==> yuv_red(y, cb, cr) == r
        }),
        ({
            let g = y - (88 * (cb - 128) + 183 * (cr - 128)) / 256;
            &&& g > 255 ==> yuv_green(y, cb, cr) == 255
            &&& g < 0 ==> yuv_green(y, cb, cr) == 0
            &&& 0 <= g <= 255 ==> yuv_green(y, cb, cr) == g
        }),
        ({
            let b = y + (454 * (cb - 128)) / 256;
            &&& b > 255 ==> yuv_blue(y, cb, cr) == 255
            &&& b < 0 ==> yuv_blue(y, cb, cr) == 0
            &&& 0 <= b <= 255 ==> yuv_blue(y, cb, cr) == b
        }),
{
}

/// With the chroma fixed, a brighter luma never gives a darker channel.
pub proof fn lemma_channels_follow_luma(y1: u8, y2: u8, cb: u8, cr: u8)
    requires
        y1 <= y2,
    ensures
        yuv_red(y1, cb, cr) <= yuv_red(y2, cb, cr),
        yuv_green(y1, cb, cr) <= yuv_green(y2, cb, cr),
        yuv_blue(y1, cb, cr) <= yuv_blue(y2, cb, cr),
{
}

} // verus!
