//! Audio output through the AW88298 amplifier: 16-bit mono samples at
//! 44.1 kHz, streamed to I2S by a circular DMA buffer.

use crate::error::{Error, ErrorKind};
use vstd::prelude::*;

verus! {

pub const SAMPLE_RATE: u32 = 44100;

/// Size in bytes of the circular DMA buffer.
pub const DMA_BUF_SIZE: usize = 4092 * 2;

/// Amplitude of the square wave that `tone` plays: a quarter of full scale.
pub const TONE_AMPLITUDE: i16 = 8191;

/// Time for the amplifier to settle after it is switched on or off.
pub const AMP_SETTLE_MS: u32 = 10;

/// The two's-complement bit pattern of a sample.
pub open spec fn sample_bits(s: i16) -> int {
    if s < 0 {
        s + 65536
    } else {
        s as int
    }
}

/// `dst` holds the little-endian bytes of the first `count` samples, then
/// the rest of `old_dst` unchanged.
pub open spec fn holds_samples(dst: Seq<u8>, old_dst: Seq<u8>, samples: Seq<i16>, count: int) -> bool {
    &&& dst.len() == old_dst.len()
    &&& forall|j: int|
        0 <= j < count ==> #[trigger] dst[2 * j] == sample_bits(samples[j]) % 256 && dst[2 * j + 1]
            == sample_bits(samples[j]) / 256
    &&& forall|k: int| 2 * count <= k < dst.len() ==> #[trigger] dst[k] == old_dst[k]
}

/// The two bytes written for a sample read back as that sample, low byte
/// first.
pub proof fn lemma_sample_bytes_round_trip(s: i16)
    ensures
        0 <= sample_bits(s) % 256 < 256,
        0 <= sample_bits(s) / 256 < 256,
        crate::drivers::bmm150::le_i16((sample_bits(s) % 256) as u8, (sample_bits(s) / 256) as u8)
            == s,
{
}

fn sample_le_bytes(s: i16) -> (bytes: (u8, u8))
    ensures
        bytes.0 == sample_bits(s) % 256,
        bytes.1 == sample_bits(s) / 256,
{
    let u: u16 = if s < 0 {
        (s as i32 + 65536) as u16
    } else {
        s as u16
    };
    assert((u & 0xffu16) == u % 256 && (u >> 8u16) == u / 256) by (bit_vector);
    ((u & 0xff) as u8, (u >> 8) as u8)
}

/// Copies samples into `dst` as little-endian 16-bit words, as many as both
/// hold, and returns the number of bytes written. Bytes past those are left
/// as they were.
pub fn fill(dst: &mut [u8], samples: &[i16]) -> (n: usize)
    ensures
        n == 2 * if samples@.len() < old(dst)@.len() / 2 {
            samples@.len() as int
        } else {
            old(dst)@.len() as int / 2
        },
        holds_samples(final(dst)@, old(dst)@, samples@, n as int / 2),
{
    let half = dst.len() / 2;
    let count = if samples.len() < half {
        samples.len()
    } else {
        half
    };
    let ghost old_dst = dst@;
    let mut j: usize = 0;
    while j < count
        invariant
            count <= samples@.len(),
            count <= old_dst.len() / 2,
            dst@.len() == old_dst.len(),
            dst.len() == old_dst.len(),
            j <= count,
            holds_samples(dst@, old_dst, samples@, j as int),
        decreases count - j,
    {
        let (lo, hi) = sample_le_bytes(samples[j]);
        let ghost before = dst@;
        dst[2 * j] = lo;
        dst[2 * j + 1] = hi;
        proof {
            assert forall|k: int| 0 <= k < j + 1 implies #[trigger] dst@[2 * k] == sample_bits(
                samples@[k],
            ) % 256 && dst@[2 * k + 1] == sample_bits(samples@[k]) / 256 by {
                if k < j {
                    assert(dst@[2 * k] == before[2 * k]);
                    assert(dst@[2 * k + 1] == before[2 * k + 1]);
                }
            }
            assert forall|k: int| 2 * (j + 1) <= k < dst@.len() implies #[trigger] dst@[k]
                == old_dst[k] by {
                assert(dst@[k] == before[k]);
            }
        }
        j += 1;
    }
    2 * count
}

/// Whether the stream has run out: a push that wrote fewer bytes than the
/// even part of the space it was offered was the last one.
pub fn is_final_push(written: usize, space: usize) -> (last: bool)
    ensures
        last == (written < space - space % 2),
{
    assert((space & !1usize) == space - space % 2) by (bit_vector);
    written < (space & !1)
}

/// How much silence to push into `space` bytes when `remaining` bytes of
/// silence are still owed: as much as fits.
pub fn silence_chunk(space: usize, remaining: usize) -> (n: usize)
    ensures
        n == if space < remaining {
            space
        } else {
            remaining
        },
{
    if space < remaining {
        space
    } else {
        remaining
    }
}

/// The outcome of playing: the error of playing itself if it failed, else
/// that of switching the amplifier off, else that of stopping the DMA transfer.
pub open spec fn combined_outcome(played: Result<(), Error>, disabled: Result<(), Error>, stopped: Result<(), Error>) -> Result<(), Error> {
    if played is Err {
        played
    } else if disabled is Err {
        disabled
    } else {
        stopped
    }
}

pub fn play_outcome(played: Result<(), Error>, disabled: Result<(), Error>, stopped: Result<(), Error>) -> (r: Result<(), Error>)
    ensures
        r == combined_outcome(played, disabled, stopped),
{
    match played {
        Err(e) => Err(e),
        Ok(()) => match disabled {
            Err(e) => Err(e),
            Ok(()) => stopped,
        },
    }
}

/// A playback succeeds only when playing, switching the amplifier off and
/// stopping the transfer all succeeded; otherwise it fails with the first
/// failure in that order, whatever came after it.
pub proof fn lemma_outcome_is_first_failure(played: Result<(), Error>, disabled: Result<(), Error>, stopped: Result<(), Error>)
    ensures
        combined_outcome(played, disabled, stopped) is Ok <==> (played is Ok && disabled is Ok
            && stopped is Ok),
        played is Err ==> combined_outcome(played, disabled, stopped) == played,
        played is Ok && disabled is Err ==> combined_outcome(played, disabled, stopped) == disabled,
        played is Ok && disabled is Ok ==> combined_outcome(played, disabled, stopped) == stopped,
{
}

/// Whether a tone of `freq_hz` can be played: above zero and at most half the
/// sample rate.
pub open spec fn is_playable_frequency(freq_hz: u32) -> bool {
    0 < freq_hz <= SAMPLE_RATE / 2
}

/// Accepts a playable tone frequency; otherwise an invalid-argument error
/// noting the tone frequency.
pub fn check_tone_frequency(freq_hz: u32) -> (r: Result<(), Error>)
    ensures
        r is Ok <==> is_playable_frequency(freq_hz),
        r matches Err(e) ==> e.kind_of() == ErrorKind::InvalidArgument && e.context_of() == Some(
            "tone frequency"@,
        ),
{
    if freq_hz == 0 || freq_hz > SAMPLE_RATE / 2 {
        return Err(Error::new(ErrorKind::InvalidArgument).with_context("tone frequency"));
    }
    Ok(())
}

/// The number of samples in `duration_ms` milliseconds, rounded down.
pub fn tone_sample_count(duration_ms: u32) -> (n: u64)
    ensures
        n == SAMPLE_RATE * duration_ms / 1000,
{
    assert(SAMPLE_RATE as u64 * duration_ms as u64 <= 44100 * 0xffff_ffff) by (nonlinear_arith)
        requires
            duration_ms <= 0xffff_ffff,
    ;
    SAMPLE_RATE as u64 * duration_ms as u64 / 1000
}

/// Sample `i` of a square wave of `freq_hz`: high in the first half of each
/// period, low in the second, the half periods counted in whole samples.
pub open spec fn square_wave(i: u64, freq_hz: u32) -> i16 {
    if (i * freq_hz * 2 / SAMPLE_RATE as int) % 2 == 0 {
        TONE_AMPLITUDE
    } else {
        (-TONE_AMPLITUDE) as i16
    }
}

/// The tone is a square wave of the given frequency: every sample is at full
/// positive or negative amplitude, it starts high, and when a half period is
/// a whole number of samples, each sample is the opposite of the one half a
/// period earlier.
pub proof fn lemma_square_wave(i: u64, freq_hz: u32)
    requires
        0 < freq_hz,
    ensures
        square_wave(i, freq_hz) == TONE_AMPLITUDE || square_wave(i, freq_hz) == -TONE_AMPLITUDE,
        square_wave(0, freq_hz) == TONE_AMPLITUDE,
        ({
            let half = SAMPLE_RATE as int / (2 * freq_hz as int);
            (SAMPLE_RATE as int) % (2 * freq_hz as int) == 0 && i + half <= u64::MAX
                ==> square_wave((i + half) as u64, freq_hz) == -square_wave(i, freq_hz)
        }),
{
    let f = freq_hz as int;
    let half = 44100int / (2 * f);
    if 44100int % (2 * f) == 0 && i + half <= u64::MAX {
        assert(half * (2 * f) == 44100) by (nonlinear_arith)
            requires
                44100int % (2 * f) == 0,
                half == 44100int / (2 * f),
                f > 0,
        ;
        let a = i * f * 2;
        assert((i + half) * f * 2 == a + 44100) by (nonlinear_arith)
            requires
                half * (2 * f) == 44100,
                a == i * f * 2,
        ;
        assert(a >= 0) by (nonlinear_arith)
            requires
                a == i * f * 2,
                i >= 0,
                f > 0,
        ;
        vstd::arithmetic::div_mod::lemma_div_plus_one(a, 44100);
    }
}

pub fn tone_sample(i: u64, freq_hz: u32) -> (s: i16)
    ensures
        s == square_wave(i, freq_hz),
{
    assert(i as u128 * freq_hz as u128 * 2 <= 0xffff_ffff_ffff_ffff * 0xffff_ffff * 2) by (nonlinear_arith)
        requires
            i <= 0xffff_ffff_ffff_ffff,
            freq_hz <= 0xffff_ffff,
    ;
    let half_periods = i as u128 * freq_hz as u128 * 2 / SAMPLE_RATE as u128;
    if half_periods % 2 == 0 {
        TONE_AMPLITUDE
    } else {
        -TONE_AMPLITUDE
    }
}

} // verus!
