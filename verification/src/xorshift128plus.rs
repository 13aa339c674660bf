//! The xor-shift algorithm: two state words advanced by left and right
//! shifts and xors; the returned word is a wrapping sum.

use vstd::prelude::*;
use vstd::wrapping::u64_specs;

use crate::prng::Prng;
use crate::splitmix64::SplitMix64;
use crate::prng_traits::{PrngAlgorithm, PrngSeeding, PrngGeneration};
use crate::Randomizable;

verus! {

/// The second state word after one step, folded from both old words.
pub open spec fn folded_word(s0: u64, s1: u64) -> u64 {
    let x = s0 ^ (s0 << 23);
    x ^ s1 ^ (x >> 18) ^ (s1 >> 5)
}

/// A generator with two 64-bit state words, seeded through the scrambler so
/// that a single narrow seed diffuses into the whole state.
pub struct XorShift128Plus {
    /// The two state words.
    pub state: [u64; 2],
}

impl PrngAlgorithm for XorShift128Plus {
    open spec fn raw(self) -> u64 {
        u64_specs::wrapping_add(folded_word(self.state[0], self.state[1]), self.state[1])
    }

    open spec fn stepped(self) -> Self {
        XorShift128Plus { state: [self.state[1], folded_word(self.state[0], self.state[1])] }
    }

    fn next(&mut self) -> (word: u64) {
        let x: u64 = self.state[0] ^ (self.state[0] << 23);
        let y: u64 = self.state[1];

        self.state = [y, x ^ y ^ (x >> 18) ^ (y >> 5)];

        self.state[1].wrapping_add(y)
    }
}

impl PrngSeeding for XorShift128Plus {
    open spec fn seeded(seed: u64) -> Self {
        XorShift128Plus {
            state: [
                SplitMix64::seeded(seed).raw(),
                SplitMix64::seeded(seed).stepped().raw(),
            ],
        }
    }

    fn new(seed: u64) -> (generator: XorShift128Plus) {
        let mut generator = XorShift128Plus { state: [0, 0] };

        generator.seed(seed);

        generator
    }

    fn seed(&mut self, seed: u64) {
        let mut tmp_prng = Prng::<SplitMix64>::new(seed);
        let low: u64 = tmp_prng.generate();
        let high: u64 = tmp_prng.generate();

        self.state = [low, high];
    }
}

impl PrngGeneration for XorShift128Plus {
    fn generate<T: Randomizable>(&mut self) -> (value: T) {
        T::generate(self)
    }
}

} // verus!
