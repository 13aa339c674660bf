use std::time::{SystemTime, UNIX_EPOCH};

use prng::prng::Prng;
use prng::splitmix64::SplitMix64;
use prng::xoroshiro128plus::XoRoShiRo128Plus;
use prng::xorshift128plus::XorShift128Plus;

#[test]
fn splitmix64_generate() {
    let seed: u64 = match SystemTime::now().duration_since(UNIX_EPOCH) {
        Ok(d) => d.as_secs() as u64,
        Err(_) => 666,
    };

    let mut prng = Prng::<SplitMix64>::new(seed);

    for _ in 0..1000000 {
        let r: i8 = prng.generate();

        assert!(r >= i8::MIN);
        assert!(r <= i8::MAX);
    }

    for _ in 0..1000000 {
        let r: u8 = prng.generate();

        assert!(r >= u8::MIN);
        assert!(r <= u8::MAX);
    }

    for _ in 0..1000000 {
        let r: i16 = prng.generate();

        assert!(r >= i16::MIN);
        assert!(r <= i16::MAX);
    }

    for _ in 0..1000000 {
        let r: u16 = prng.generate();

        assert!(r >= u16::MIN);
        assert!(r <= u16::MAX);
    }

    for _ in 0..1000000 {
        let r: i32 = prng.generate();

        assert!(r >= i32::MIN);
        assert!(r <= i32::MAX);
    }

    for _ in 0..1000000 {
        let r: u32 = prng.generate();

        assert!(r >= u32::MIN);
        assert!(r <= u32::MAX);
    }

    for _ in 0..1000000 {
        let r: i64 = prng.generate();

        assert!(r >= i64::MIN);
        assert!(r <= i64::MAX);
    }

    for _ in 0..1000000 {
        let r: u64 = prng.generate();

        assert!(r >= u64::MIN);
        assert!(r <= u64::MAX);
    }
}

#[test]
fn xoroshiro128plus_generate() {
    let seed: u64 = match SystemTime::now().duration_since(UNIX_EPOCH) {
        Ok(d) => d.as_secs() as u64,
        Err(_) => 666,
    };

    let mut prng = Prng::<XoRoShiRo128Plus>::new(seed);

    for _ in 0..1000000 {
        let r: i8 = prng.generate();

        assert!(r >= i8::MIN);
        assert!(r <= i8::MAX);
    }

    for _ in 0..1000000 {
        let r: u8 = prng.generate();

        assert!(r >= u8::MIN);
        assert!(r <= u8::MAX);
    }

    for _ in 0..1000000 {
        let r: i16 = prng.generate();

        assert!(r >= i16::MIN);
        assert!(r <= i16::MAX);
    }

    for _ in 0..1000000 {
        let r: u16 = prng.generate();

        assert!(r >= u16::MIN);
        assert!(r <= u16::MAX);
    }

    for _ in 0..1000000 {
        let r: i32 = prng.generate();

        assert!(r >= i32::MIN);
        assert!(r <= i32::MAX);
    }

    for _ in 0..1000000 {
        let r: u32 = prng.generate();

        assert!(r >= u32::MIN);
        assert!(r <= u32::MAX);
    }

    for _ in 0..1000000 {
        let r: i64 = prng.generate();

        assert!(r >= i64::MIN);
        assert!(r <= i64::MAX);
    }

    for _ in 0..1000000 {
        let r: u64 = prng.generate();

        assert!(r >= u64::MIN);
        assert!(r <= u64::MAX);
    }
}

#[test]
fn xorshift128plus_generate() {
    let seed: u64 = match SystemTime::now().duration_since(UNIX_EPOCH) {
        Ok(d) => d.as_secs() as u64,
        Err(_) => 666,
    };

    let mut prng = Prng::<XorShift128Plus>::new(seed);

    for _ in 0..1000000 {
        let r: i8 = prng.generate();

        assert!(r >= i8::MIN);
        assert!(r <= i8::MAX);
    }

    for _ in 0..1000000 {
        let r: u8 = prng.generate();

        assert!(r >= u8::MIN);
        assert!(r <= u8::MAX);
    }

    for _ in 0..1000000 {
        let r: i16 = prng.generate();

        assert!(r >= i16::MIN);
        assert!(r <= i16::MAX);
    }

    for _ in 0..1000000 {
        let r: u16 = prng.generate();

        assert!(r >= u16::MIN);
        assert!(r <= u16::MAX);
    }

    for _ in 0..1000000 {
        let r: i32 = prng.generate();

        assert!(r >= i32::MIN);
        assert!(r <= i32::MAX);
    }

    for _ in 0..1000000 {
        let r: u32 = prng.generate();

        assert!(r >= u32::MIN);
        assert!(r <= u32::MAX);
    }

    for _ in 0..1000000 {
        let r: i64 = prng.generate();

        assert!(r >= i64::MIN);
        assert!(r <= i64::MAX);
    }

    for _ in 0..1000000 {
        let r: u64 = prng.generate();

        assert!(r >= u64::MIN);
        assert!(r <= u64::MAX);
    }
}

#[test]
fn generate_truncates_raw_words() {
    // The raw words from seed 42 are 0xBDD73227E99238FC,
    // 0x28EFE333CB56D457 and 0x47526757DAF936AA; each generated value is
    // the low bits of the next word, reinterpreted in the target type.
    let mut prng = Prng::<SplitMix64>::new(42);

    let first: u8 = prng.generate();
    assert_eq!(first, 0xFC);

    let second: i8 = prng.generate();
    assert_eq!(second, 0x57);

    let third: u16 = prng.generate();
    assert_eq!(third, 0x36AA);
}

#[test]
fn generate_reinterprets_sign() {
    // The first raw word from seed 42 has low 32 bits 0xE99238FC, whose
    // two's-complement reading is negative.
    let mut prng = Prng::<SplitMix64>::new(42);

    let value: i32 = prng.generate();
    assert_eq!(value, -376293124);
}
