//! Busy-wait delays, calibrated for the ESP32-S3 at full clock speed.

use vstd::prelude::*;

verus! {

/// Nanoseconds taken by one spin of the busy-wait loop.
pub const NS_PER_ITER: u32 = 20;

/// `core::hint::black_box(())`: one spin of a busy-wait that the optimiser
/// may not remove. Nothing is stated of it; it returns nothing.
#[verifier::external_body]
fn spin() {
    core::hint::black_box(());
}

/// A delay provider that spins the CPU.
pub struct BusyWait;

/// The number of busy-wait spins in a delay of `ms` milliseconds.
pub open spec fn spins_for_ms(ms: u32) -> nat {
    (ms * (1_000_000u32 / NS_PER_ITER)) as nat
}

impl BusyWait {
    /// Waits about `ns` nanoseconds: `ns / NS_PER_ITER` spins. The result
    /// counts the spins made; it exists only for the proof.
    pub fn delay_ns(&mut self, ns: u32) -> (spins: Ghost<nat>)
        ensures
            spins@ == ns / NS_PER_ITER,
    {
        let spins = ns / NS_PER_ITER;
        let mut i: u32 = 0;
        let ghost mut count: nat = 0;
        while i < spins
            invariant
                i <= spins,
                count == i,
            decreases spins - i,
        {
            spin();
            proof {
                count = count + 1;
            }
            i += 1;
        }
        Ghost(count)
    }
}

/// Waits about `ms` milliseconds, one millisecond (50 000 spins) at a time,
/// for any `ms` without overflow. The result counts the spins made; it exists
/// only for the proof.
pub fn delay_ms(ms: u32) -> (spins: Ghost<nat>)
    ensures
        spins@ == spins_for_ms(ms),
{
    let mut wait = BusyWait;
    let mut k: u32 = 0;
    let ghost mut count: nat = 0;
    while k < ms
        invariant
            k <= ms,
            count == k * 50_000,
        decreases ms - k,
    {
        let Ghost(step) = wait.delay_ns(1_000_000);
        proof {
            count = count + step;
        }
        k += 1;
    }
    Ghost(count)
}

} // verus!
