use vstd::prelude::*;

use crate::errors::PluginError;

verus! {

/// The state a fresh generator falls back to when seeded with zero, which the
/// permutation below would otherwise map to itself forever.
pub const DEFAULT_SEED: u64 = 0x9E3779B97F4A7C15;

/// One step of the xorshift64 permutation: the next generator state after `x`.
pub open spec fn next_state(x: u64) -> u64 {
    let a = x ^ (x << 13);
    let b = a ^ (a >> 7);
    b ^ (b << 17)
}

/// A seedable pseudo-random generator (xorshift64) for failure injection.
/// Randomness is injected explicitly so that failure-injection tests are
/// deterministic: the caller seeds the generator once at startup and every
/// sampled outcome is a function of that seed.
pub struct Rng {
    pub state: u64,
}

impl Rng {
    /// A generator seeded with `seed`; a zero seed is replaced by a fixed
    /// nonzero one, since the all-zero state never leaves itself.
    pub fn new(seed: u64) -> (r: Rng)
        ensures
            r.state == if seed == 0 { DEFAULT_SEED } else { seed },
    {
        if seed == 0 {
            Rng { state: DEFAULT_SEED }
        } else {
            Rng { state: seed }
        }
    }
}

/// Whether a transfer with failure injection set to `inject` and generator
/// state `state` samples the "fail" outcome.
pub open spec fn fail_sampled(inject: bool, state: u64) -> bool {
    inject && (next_state(state) & 31) == 31
}

/// Draws the next pseudo-random bit used for failure injection: true on
/// roughly one draw in 32.
pub fn rand(rng: &mut Rng) -> (b: bool)
    ensures
        final(rng).state == next_state(old(rng).state),
        b == ((next_state(old(rng).state) & 31) == 31),
{
    let x = rng.state;
    let a = x ^ (x << 13u64);
    let b = a ^ (a >> 7u64);
    let n = b ^ (b << 17u64);
    rng.state = n;
    (n & 31) == 31
}

/// The failure-injection gate that every transfer operation passes before any
/// filesystem work: when injection is enabled it draws one bit and fails with
/// [`PluginError::FailTriggered`] if the bit is set; when disabled it always
/// succeeds and leaves the generator untouched.
pub fn randomly_fail(inject: bool, rng: &mut Rng) -> (r: Result<(), PluginError>)
    ensures
        final(rng).state == if inject { next_state(old(rng).state) } else { old(rng).state },
        r matches Err(e) ==> e == PluginError::FailTriggered,
        (r is Err) == fail_sampled(inject, old(rng).state),
{
    if inject && rand(rng) {
        Err(PluginError::FailTriggered)
    } else {
        Ok(())
    }
}

} // verus!
