//! The board: camera capture, audio output, and the decisions the board
//! makes between bus transfers.

use vstd::prelude::*;

pub mod camera;
pub mod playback;
pub mod speaker;

verus! {

/// Seconds in a day; the RTC's time of day wraps around at midnight.
pub const SECONDS_PER_DAY: u32 = 86400;

/// The seconds from `start` to `now`, both in seconds since midnight,
/// assuming that midnight has passed in between when `now` is the smaller.
pub open spec fn elapsed_between(start: u32, now: u32) -> int {
    if now >= start {
        now - start
    } else {
        now + 86400 - start
    }
}

pub fn elapsed_seconds(start: u32, now: u32) -> (elapsed: u32)
    requires
        now < start ==> start <= now + SECONDS_PER_DAY <= u32::MAX,
    ensures
        elapsed == elapsed_between(start, now),
{
    if now >= start {
        now - start
    } else {
        now + SECONDS_PER_DAY - start
    }
}

/// Whether a wait of `seconds` that began at `start` is over at `now`.
pub fn wait_is_over(start: u32, now: u32, seconds: u32) -> (over: bool)
    requires
        now < start ==> start <= now + SECONDS_PER_DAY <= u32::MAX,
    ensures
        over == (elapsed_between(start, now) >= seconds),
{
    elapsed_seconds(start, now) >= seconds
}

/// Between two times of day the elapsed time is their difference modulo a
/// day, so a wait across midnight is measured correctly.
pub proof fn lemma_elapsed_wraps_at_midnight(start: u32, now: u32)
    requires
        start < 86400,
        now < 86400,
    ensures
        0 <= elapsed_between(start, now) < 86400,
        elapsed_between(start, now) == (now - start) % 86400,
{
}

/// One step of freeing the I2C bus from a device that holds SDA low.
#[derive(Debug, Clone, Copy, PartialEq, Eq, Structural)]
pub enum RecoveryStep {
    SclLow,
    SclHigh,
    DelayMs(u32),
}

/// Step `i` of the nine clock pulses: wait, SCL low, wait, SCL high.
pub open spec fn pulse_step(i: int) -> RecoveryStep {
    if i % 4 == 1 {
        RecoveryStep::SclLow
    } else if i % 4 == 3 {
        RecoveryStep::SclHigh
    } else {
        RecoveryStep::DelayMs(1)
    }
}

/// Nothing when SDA is free; else nine 1 ms clock pulses on SCL, enough for
/// any device to finish the byte it was sending, and 5 ms to settle.
pub open spec fn recovery_sequence(sda_low: bool) -> Seq<RecoveryStep> {
    if sda_low {
        Seq::new(36, |i: int| pulse_step(i)).push(RecoveryStep::DelayMs(5))
    } else {
        Seq::empty()
    }
}

/// With SDA held low the recovery clocks SCL low and high exactly nine times,
/// each level held for a millisecond, ending with SCL high and a 5 ms pause;
/// with SDA free it does nothing.
pub proof fn lemma_nine_clock_pulses()
    ensures
        recovery_sequence(false).len() == 0,
        recovery_sequence(true).len() == 37,
        forall|k: int|
            0 <= k < 9 ==> recovery_sequence(true)[4 * k] == RecoveryStep::DelayMs(1)
                && #[trigger] recovery_sequence(true)[4 * k + 1] == RecoveryStep::SclLow
                && recovery_sequence(true)[4 * k + 2] == RecoveryStep::DelayMs(1)
                && recovery_sequence(true)[4 * k + 3] == RecoveryStep::SclHigh,
        recovery_sequence(true)[36] == RecoveryStep::DelayMs(5),
{
    assert forall|k: int| 0 <= k < 9 implies recovery_sequence(true)[4 * k] == RecoveryStep::DelayMs(1)
        && #[trigger] recovery_sequence(true)[4 * k + 1] == RecoveryStep::SclLow
        && recovery_sequence(true)[4 * k + 2] == RecoveryStep::DelayMs(1)
        && recovery_sequence(true)[4 * k + 3] == RecoveryStep::SclHigh by {
        assert((4 * k) % 4 == 0 && (4 * k + 1) % 4 == 1 && (4 * k + 2) % 4 == 2 && (4 * k + 3) % 4
            == 3);
    }
}

/// The steps that free the bus, given whether SDA reads low with SCL high.
pub fn bus_recovery_steps(sda_low: bool) -> (steps: Vec<RecoveryStep>)
    ensures
        steps@ == recovery_sequence(sda_low),
{
    let mut steps: Vec<RecoveryStep> = Vec::new();
    if !sda_low {
        assert(steps@ =~= recovery_sequence(sda_low));
        return steps;
    }
    let mut k: usize = 0;
    while k < 9
        invariant
            k <= 9,
            steps@ =~= Seq::new(4 * k as nat, |i: int| pulse_step(i)),
        decreases 9 - k,
    {
        steps.push(RecoveryStep::DelayMs(1));
        steps.push(RecoveryStep::SclLow);
        steps.push(RecoveryStep::DelayMs(1));
        steps.push(RecoveryStep::SclHigh);
        k += 1;
        assert(steps@ =~= Seq::new(4 * k as nat, |i: int| pulse_step(i)));
    }
    steps.push(RecoveryStep::DelayMs(5));
    assert(steps@ =~= recovery_sequence(sda_low));
    steps
}

} // verus!
