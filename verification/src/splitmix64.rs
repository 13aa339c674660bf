//! The scrambler algorithm: a single-word state advanced by a fixed odd
//! increment, with all mixing done on output.

use vstd::prelude::*;
use vstd::wrapping::u64_specs;

use crate::prng_traits::{PrngAlgorithm, PrngSeeding, PrngGeneration};
use crate::Randomizable;

verus! {

/// The odd increment added to the state on every step.
pub const GOLDEN_GAMMA: u64 = 0x9E37_79B9_7F4A_7C15;

/// First multiplier of the output mix.
pub const MIX_MULTIPLIER_A: u64 = 0xBF58_476D_1CE4_E5B9;

/// Second multiplier of the output mix.
pub const MIX_MULTIPLIER_B: u64 = 0x94D0_49BB_1331_11EB;

/// The state after one step: the old state plus `GOLDEN_GAMMA`, wrapping.
pub open spec fn advanced_state(state: u64) -> u64 {
    u64_specs::wrapping_add(state, GOLDEN_GAMMA)
}

/// The output mix: two rounds of xor-shift-right followed by a wrapping
/// multiply, then a final xor-shift-right of 32 bits.
pub open spec fn mix_word(value: u64) -> u64 {
    let round_a = u64_specs::wrapping_mul(value ^ (value >> 30), MIX_MULTIPLIER_A);
    let round_b = u64_specs::wrapping_mul(round_a ^ (round_a >> 27), MIX_MULTIPLIER_B);
    round_b ^ (round_b >> 32)
}

/// A generator with a single 64-bit state word. Seeding stores the seed
/// directly; every `next` call increments the state and mixes it into the
/// returned word. It doubles as the seed expander for the two-word
/// algorithms.
pub struct SplitMix64 {
    /// The single state word.
    pub state: u64,
}

impl PrngAlgorithm for SplitMix64 {
    open spec fn raw(self) -> u64 {
        mix_word(advanced_state(self.state))
    }

    open spec fn stepped(self) -> Self {
        SplitMix64 { state: advanced_state(self.state) }
    }

    fn next(&mut self) -> (word: u64) {
        self.state = self.state.wrapping_add(GOLDEN_GAMMA);

        let mut z: u64 = self.state;

        z = (z ^ (z >> 30)).wrapping_mul(MIX_MULTIPLIER_A);
        z = (z ^ (z >> 27)).wrapping_mul(MIX_MULTIPLIER_B);
        z ^ (z >> 32)
    }
}

impl PrngSeeding for SplitMix64 {
    open spec fn seeded(seed: u64) -> Self {
        SplitMix64 { state: seed }
    }

    fn new(seed: u64) -> (generator: SplitMix64) {
        SplitMix64 { state: seed }
    }

    fn seed(&mut self, seed: u64) {
        self.state = seed;
    }
}

impl PrngGeneration for SplitMix64 {
    fn generate<T: Randomizable>(&mut self) -> (value: T) {
        T::generate(self)
    }
}

} // verus!
