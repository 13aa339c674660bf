//! Deterministic pseudo-random number generation.
//!
//! Three interchangeable 64-bit generator algorithms produce a raw word
//! stream from a single seed; a conversion trait truncates raw words into
//! values of any integer width, and a facade binds an algorithm to the
//! generation protocol.

pub mod prng;
pub mod prng_traits;
pub mod splitmix64;
pub mod xoroshiro128plus;
pub mod xorshift128plus;

use vstd::prelude::*;

use prng_traits::PrngAlgorithm;

verus! {

/// A numeric type that can be produced from a raw 64-bit word.
///
/// Every integer implementation truncates the word to the target width
/// (two's-complement reinterpretation for signed types), so the whole
/// representable range of the type is reachable.
pub trait Randomizable: Sized {
    /// The value this type derives from a raw 64-bit word.
    spec fn from_raw(word: u64) -> Self;

    /// Draw one raw word from the algorithm and convert it.
    fn generate<A: PrngAlgorithm>(algorithm: &mut A) -> (value: Self)
        ensures
            *final(algorithm) == old(algorithm).stepped(),
            value == Self::from_raw(old(algorithm).raw()),
    ;
}

impl Randomizable for u8 {
    open spec fn from_raw(word: u64) -> Self {
        word as u8
    }

    fn generate<A: PrngAlgorithm>(algorithm: &mut A) -> (value: Self) {
        algorithm.next() as u8
    }
}

impl Randomizable for u16 {
    open spec fn from_raw(word: u64) -> Self {
        word as u16
    }

    fn generate<A: PrngAlgorithm>(algorithm: &mut A) -> (value: Self) {
        algorithm.next() as u16
    }
}

impl Randomizable for u32 {
    open spec fn from_raw(word: u64) -> Self {
        word as u32
    }

    fn generate<A: PrngAlgorithm>(algorithm: &mut A) -> (value: Self) {
        algorithm.next() as u32
    }
}

impl Randomizable for u64 {
    open spec fn from_raw(word: u64) -> Self {
        word
    }

    fn generate<A: PrngAlgorithm>(algorithm: &mut A) -> (value: Self) {
        algorithm.next()
    }
}

impl Randomizable for usize {
    open spec fn from_raw(word: u64) -> Self {
        word as usize
    }

    fn generate<A: PrngAlgorithm>(algorithm: &mut A) -> (value: Self) {
        algorithm.next() as usize
    }
}

impl Randomizable for i8 {
    open spec fn from_raw(word: u64) -> Self {
        word as i8
    }

    fn generate<A: PrngAlgorithm>(algorithm: &mut A) -> (value: Self) {
        algorithm.next() as i8
    }
}

impl Randomizable for i16 {
    open spec fn from_raw(word: u64) -> Self {
        word as i16
    }

    fn generate<A: PrngAlgorithm>(algorithm: &mut A) -> (value: Self) {
        algorithm.next() as i16
    }
}

impl Randomizable for i32 {
    open spec fn from_raw(word: u64) -> Self {
        word as i32
    }

    fn generate<A: PrngAlgorithm>(algorithm: &mut A) -> (value: Self) {
        algorithm.next() as i32
    }
}

impl Randomizable for i64 {
    open spec fn from_raw(word: u64) -> Self {
        word as i64
    }

    fn generate<A: PrngAlgorithm>(algorithm: &mut A) -> (value: Self) {
        algorithm.next() as i64
    }
}

impl Randomizable for isize {
    open spec fn from_raw(word: u64) -> Self {
        word as isize
    }

    fn generate<A: PrngAlgorithm>(algorithm: &mut A) -> (value: Self) {
        algorithm.next() as isize
    }
}

/// A generated value always lies within its type's representable range:
/// conversion from a raw word is truncation to the target width, which by
/// construction cannot escape the type.
pub proof fn lemma_generate_within_width(word: u64)
    ensures
        u8::MIN <= <u8 as Randomizable>::from_raw(word) <= u8::MAX,
        u16::MIN <= <u16 as Randomizable>::from_raw(word) <= u16::MAX,
        u32::MIN <= <u32 as Randomizable>::from_raw(word) <= u32::MAX,
        u64::MIN <= <u64 as Randomizable>::from_raw(word) <= u64::MAX,
        usize::MIN <= <usize as Randomizable>::from_raw(word) <= usize::MAX,
        i8::MIN <= <i8 as Randomizable>::from_raw(word) <= i8::MAX,
        i16::MIN <= <i16 as Randomizable>::from_raw(word) <= i16::MAX,
        i32::MIN <= <i32 as Randomizable>::from_raw(word) <= i32::MAX,
        i64::MIN <= <i64 as Randomizable>::from_raw(word) <= i64::MAX,
        isize::MIN <= <isize as Randomizable>::from_raw(word) <= isize::MAX,
{
}

} // verus!
