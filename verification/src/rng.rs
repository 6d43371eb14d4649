//! The deterministic hash behind every pseudo-random draw.
//!
//! Both the initial seeding of the grid and the homeostatic reseeding of dead
//! cells draw from the same 32-bit avalanche mix, applied to a seed derived
//! from the cell's coordinates. The mix is a pure function of its argument,
//! so every draw is bit-reproducible for a fixed grid size.

use vstd::prelude::*;

verus! {

/// Xor constant applied before the first multiplication of the mix.
pub const MIX_XOR: u32 = 2747636419;

/// Odd multiplicative constant of the avalanche mix.
pub const MIX_MULTIPLIER: u32 = 2654435769;

/// One wrapping multiplication by [`MIX_MULTIPLIER`].
pub open spec fn spec_mix_mul(state: u32) -> u32 {
    vstd::wrapping::u32_specs::wrapping_mul(state, MIX_MULTIPLIER)
}

/// The full avalanche mix: xor, then three rounds of wrapping
/// multiplication, the first two each followed by a 16-bit xorshift.
pub open spec fn spec_hash(value: u32) -> u32 {
    let s1 = value ^ MIX_XOR;
    let s2 = spec_mix_mul(s1);
    let s3 = s2 ^ (s2 >> 16u32);
    let s4 = spec_mix_mul(s3);
    let s5 = s4 ^ (s4 >> 16u32);
    spec_mix_mul(s5)
}

/// The per-cell draw seed: the cell's row in the high 16 bits, its column in
/// the low 16 bits.
pub open spec fn spec_seed(x: u32, y: u32) -> u32 {
    (y << 16u32) | x
}

/// Computes the avalanche mix of `value`.
pub fn hash(value: u32) -> (r: u32)
    ensures
        r == spec_hash(value),
{
    let mut state = value;
    state = state ^ MIX_XOR;
    state = state.wrapping_mul(MIX_MULTIPLIER);
    state = state ^ (state >> 16u32);
    state = state.wrapping_mul(MIX_MULTIPLIER);
    state = state ^ (state >> 16u32);
    state = state.wrapping_mul(MIX_MULTIPLIER);
    state
}

/// Computes the draw seed for the cell at column `x`, row `y`.
pub fn seed_for(x: u32, y: u32) -> (r: u32)
    ensures
        r == spec_seed(x, y),
{
    (y << 16u32) | x
}

} // verus!
