use rand_xoshiro::rand_core::{Rng, SeedableRng};
use rand_xoshiro::Xoshiro256PlusPlus;
use sky::rng::Rng64;

#[test]
fn matches_xoshiro256plusplus_streams() {
    for seed in [0u64, 1, 42, 200, 0xDEAD_BEEF, u64::MAX] {
        let mut ours = Rng64::seed_from_u64(seed);
        let mut theirs = Xoshiro256PlusPlus::seed_from_u64(seed);
        for step in 0..64 {
            assert_eq!(
                ours.next_u64(),
                theirs.next_u64(),
                "divergence at seed {seed}, step {step}"
            );
        }
    }
}

#[test]
fn below_stays_in_range() {
    let mut rng = Rng64::seed_from_u64(7);
    for n in [1u64, 2, 3, 10, 750, 9_993_003, u64::MAX] {
        for _ in 0..100 {
            assert!(rng.below(n) < n);
        }
    }
}

#[test]
fn below_is_deterministic() {
    let mut a = Rng64::seed_from_u64(99);
    let mut b = Rng64::seed_from_u64(99);
    for _ in 0..100 {
        assert_eq!(a.below(1024), b.below(1024));
    }
}
