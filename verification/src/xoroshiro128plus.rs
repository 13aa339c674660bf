//! The short-period rotate-xor-shift algorithm: two state words advanced
//! by rotations, xors and shifts; the returned word is their wrapping sum.

use vstd::prelude::*;
use vstd::wrapping::u64_specs;

use crate::prng::Prng;
use crate::splitmix64::SplitMix64;
use crate::prng_traits::{PrngAlgorithm, PrngSeeding, PrngGeneration};
use crate::Randomizable;

verus! {

/// `x` rotated left by `k` bits: the bits shifted off the top re-enter at
/// the bottom.
pub open spec fn rotated_left(x: u64, k: u64) -> u64 {
    (x << k) | (x >> ((64 - k) as u64))
}

/// Rotate `x` left by `k` bits.
pub fn rotl(x: u64, k: usize) -> (rotated: u64)
    requires
        0 < k < 64,
    ensures
        rotated == rotated_left(x, k as u64),
{
    (x << k) | (x >> (64 - k))
}

/// First state word after one step.
pub open spec fn mixed_low(s0: u64, s1: u64) -> u64 {
    rotated_left(s0, 24) ^ ((s1 ^ s0) << 16)
}

/// Second state word after one step.
pub open spec fn mixed_high(s0: u64, s1: u64) -> u64 {
    rotated_left(s1 ^ s0, 37)
}

/// A generator with two 64-bit state words, seeded through the scrambler so
/// that a single narrow seed diffuses into the whole state.
pub struct XoRoShiRo128Plus {
    /// The two state words.
    pub state: [u64; 2],
}

impl PrngAlgorithm for XoRoShiRo128Plus {
    open spec fn raw(self) -> u64 {
        u64_specs::wrapping_add(self.state[0], self.state[1])
    }

    open spec fn stepped(self) -> Self {
        XoRoShiRo128Plus {
            state: [
                mixed_low(self.state[0], self.state[1]),
                mixed_high(self.state[0], self.state[1]),
            ],
        }
    }

    fn next(&mut self) -> (word: u64) {
        let s0: u64 = self.state[0];
        let mut s1: u64 = self.state[1];
        let result: u64 = s0.wrapping_add(s1);

        s1 = s1 ^ s0;
        self.state = [rotl(s0, 24) ^ (s1 << 16), rotl(s1, 37)];

        result
    }
}

impl PrngSeeding for XoRoShiRo128Plus {
    open spec fn seeded(seed: u64) -> Self {
        XoRoShiRo128Plus {
            state: [
                SplitMix64::seeded(seed).raw(),
                SplitMix64::seeded(seed).stepped().raw(),
            ],
        }
    }

    fn new(seed: u64) -> (generator: XoRoShiRo128Plus) {
        let mut generator = XoRoShiRo128Plus { state: [0, 0] };

        generator.seed(seed);

        generator
    }

    fn seed(&mut self, seed: u64) {
        let mut tmp_prng = Prng::<SplitMix64>::new(seed);
        let low: u64 = tmp_prng.generate();
        let high: u64 = tmp_prng.generate();

        self.state = [low, high];
    }
}

impl PrngGeneration for XoRoShiRo128Plus {
    fn generate<T: Randomizable>(&mut self) -> (value: T) {
        T::generate(self)
    }
}

} // verus!
