use vstd::prelude::*;

verus! {

/// Multiplier of the 64-bit linear congruential generator.
pub const LCG_MULTIPLIER: u64 = 6364136223846793005;

/// The state that follows `s`: `s * LCG_MULTIPLIER + 1`, modulo 2^64.
pub open spec fn lcg_step(s: u64) -> u64 {
    vstd::wrapping::u64_specs::wrapping_add(
        vstd::wrapping::u64_specs::wrapping_mul(s, LCG_MULTIPLIER),
        1,
    )
}

/// Advances the generator by one step and returns the new state.
pub fn lcg_next(state: &mut u64) -> (r: u64)
    ensures
        *final(state) == lcg_step(*old(state)),
        r == *final(state),
{
    *state = state.wrapping_mul(LCG_MULTIPLIER).wrapping_add(1);
    *state
}

} // verus!
