//! The generator-algorithm protocols: raw word production and seeding.

use vstd::prelude::*;

verus! {

/// A deterministic 64-bit generator algorithm.
///
/// The two spec functions are the algorithm's mathematical model: `raw` is
/// the word the next step will return and `stepped` is the state after that
/// step. `next` is thereby pinned down exactly: the word it returns and the
/// state it leaves behind are pure functions of the state it started from —
/// no ambient input of any kind can influence the stream.
pub trait PrngAlgorithm: Sized {
    /// The raw word produced by one step from this state.
    spec fn raw(self) -> u64;

    /// The state reached by one step from this state.
    spec fn stepped(self) -> Self;

    /// Advance the internal state by exactly one step and return the
    /// derived 64-bit word.
    fn next(&mut self) -> (word: u64)
        ensures
            word == old(self).raw(),
            *final(self) == old(self).stepped(),
    ;
}

/// Construction and re-seeding of a generator algorithm.
///
/// `seeded` is the model of seeding: the unique state an algorithm reaches
/// from a given 64-bit seed. Both `new` and `seed` land on exactly that
/// state, so re-seeding discards all prior history.
pub trait PrngSeeding: Sized {
    /// The state an algorithm assumes when (re)initialized from `seed`.
    spec fn seeded(seed: u64) -> Self;

    /// Construct a generator whose state is fully determined by `seed`.
    fn new(seed: u64) -> (generator: Self)
        ensures
            generator == Self::seeded(seed),
    ;

    /// Reset the state to exactly what `new(seed)` would produce,
    /// regardless of how far this generator has already advanced.
    fn seed(&mut self, seed: u64)
        ensures
            *final(self) == Self::seeded(seed),
    ;
}

/// Typed generation on top of a raw word stream.
pub trait PrngGeneration: PrngAlgorithm {
    /// Draw one raw word and convert it to the requested type.
    fn generate<T: crate::Randomizable>(&mut self) -> (value: T)
        ensures
            *final(self) == old(self).stepped(),
            value == T::from_raw(old(self).raw()),
    ;
}

/// The state reached from `start` after `steps` calls of `next`.
pub open spec fn state_after<A: PrngAlgorithm>(start: A, steps: nat) -> A
    decreases steps,
{
    if steps == 0 {
        start
    } else {
        state_after(start, (steps - 1) as nat).stepped()
    }
}

/// The raw word a generator started in state `start` returns on its
/// `index`-th call of `next` (counting from zero).
pub open spec fn word_at<A: PrngAlgorithm>(start: A, index: nat) -> u64 {
    state_after(start, index).raw()
}

/// Determinism: two freshly constructed generators given the same seed
/// produce identical raw words at every position of their streams.
pub proof fn lemma_fixed_seed_determinism<A: PrngAlgorithm + PrngSeeding>(
    left: A,
    right: A,
    seed: u64,
    index: nat,
)
    requires
        left == A::seeded(seed),
        right == A::seeded(seed),
    ensures
        word_at(left, index) == word_at(right, index),
        state_after(left, index) == state_after(right, index),
{
}

/// Re-seeding resets: a generator re-seeded with `seed` — however far it had
/// advanced before — produces exactly the stream of a fresh generator
/// constructed with `seed`.
pub proof fn lemma_reseed_resets<A: PrngAlgorithm + PrngSeeding>(
    reseeded: A,
    fresh: A,
    seed: u64,
    index: nat,
)
    requires
        reseeded == A::seeded(seed),
        fresh == A::seeded(seed),
    ensures
        word_at(reseeded, index) == word_at(fresh, index),
        state_after(reseeded, index) == state_after(fresh, index),
{
}

} // verus!
