//! The generator facade: one algorithm instance bound to the seeding and
//! generation protocols.

use vstd::prelude::*;

use crate::prng_traits::{PrngAlgorithm, PrngSeeding, PrngGeneration};
use crate::Randomizable;

verus! {

/// A generator bound to one algorithm instance, which it owns exclusively.
pub struct Prng<T: PrngAlgorithm>(pub T);

impl<G: PrngAlgorithm + PrngSeeding + PrngGeneration> Prng<G> {
    /// Construct the underlying algorithm from `seed`; the whole future
    /// output stream is a function of this one value.
    pub fn new(seed: u64) -> (prng: Prng<G>)
        ensures
            prng.0 == G::seeded(seed),
    {
        Prng(G::new(seed))
    }

    /// Draw one raw word from the owned algorithm and truncate it to the
    /// requested integer type.
    pub fn generate<T: Randomizable>(&mut self) -> (value: T)
        ensures
            final(self).0 == old(self).0.stepped(),
            value == T::from_raw(old(self).0.raw()),
    {
        self.0.generate()
    }
}

} // verus!
