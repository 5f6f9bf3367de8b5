use rand_core::{RngCore, SeedableRng};
use rand_xorshift::XorShiftRng;
use zk_prover::randomness::RandomnessSource;

#[test]
fn fixed_seed_reproduces_the_stream() {
    let seed = [0x42u8; 16];
    let mut a = RandomnessSource::from_seed(seed);
    let mut b = RandomnessSource::from_seed(seed);
    assert_eq!(a.draw(64), b.draw(64));
    assert_eq!(a.draw(7), b.draw(7));
}

#[test]
fn draws_match_the_xorshift_generator() {
    let seed = [0x11u8; 16];
    let mut src = RandomnessSource::from_seed(seed);
    let drawn = src.draw(32);

    let mut rng = XorShiftRng::from_seed(seed);
    let mut expected = vec![0u8; 32];
    rng.fill_bytes(&mut expected);
    assert_eq!(drawn, expected);
    // a xorshift stream is not the zero stream
    assert!(drawn.iter().any(|&b| b != 0));
}

#[test]
fn consecutive_draws_walk_one_stream() {
    let seed = [0x33u8; 16];
    let mut src = RandomnessSource::from_seed(seed);
    let first = src.draw(16);
    let second = src.draw(16);

    let mut rng = XorShiftRng::from_seed(seed);
    let mut stream = vec![0u8; 32];
    rng.fill_bytes(&mut stream);
    assert_eq!(first, stream[..16].to_vec());
    assert_eq!(second, stream[16..].to_vec());
}

#[test]
fn different_seeds_differ() {
    let mut a = RandomnessSource::from_seed([0u8; 16]);
    let mut b = RandomnessSource::from_seed([1u8; 16]);
    assert_ne!(a.draw(32), b.draw(32));
}
