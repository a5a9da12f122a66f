use sky::color::Color;
use sky::rng::Rng64;
use sky::stars::spectral_type::SpectralType;

const ALL: [SpectralType; 7] = [
    SpectralType::O,
    SpectralType::B,
    SpectralType::A,
    SpectralType::F,
    SpectralType::G,
    SpectralType::K,
    SpectralType::M,
];

#[test]
fn from_dist_enumerates_all_types() {
    for (i, expected) in ALL.iter().enumerate() {
        assert_eq!(SpectralType::from_dist(i), *expected);
    }
}

#[test]
fn weights_are_positive() {
    for s in ALL {
        assert!(s.weight() > 0);
    }
}

#[test]
fn weight_table_values() {
    assert_eq!(SpectralType::O.weight(), 3);
    assert_eq!(SpectralType::B.weight(), 13_000);
    assert_eq!(SpectralType::A.weight(), 60_000);
    assert_eq!(SpectralType::F.weight(), 300_000);
    assert_eq!(SpectralType::G.weight(), 760_000);
    assert_eq!(SpectralType::K.weight(), 1_210_000);
    assert_eq!(SpectralType::M.weight(), 7_650_000);
}

#[test]
fn radius_ranges_are_nonempty() {
    for s in ALL {
        let (lo, hi) = s.radius();
        assert!(lo < hi, "{s:?}");
    }
}

#[test]
fn colors_match_their_8bit_definitions() {
    assert_eq!(SpectralType::O.color(), Color::new_from_u8(155, 176, 255, 255));
    assert_eq!(SpectralType::G.color(), Color::new_from_u8(255, 244, 234, 255));
    assert_eq!(SpectralType::M.color(), Color::new_from_u8(255, 204, 111, 255));
}

#[test]
fn sampling_matches_declared_weight_proportions() {
    let dist = SpectralType::get_distribution();
    let mut rng = Rng64::seed_from_u64(20_250_101);
    let draws: usize = 100_000;
    let mut counts = [0usize; 7];
    for _ in 0..draws {
        let idx = dist.sample(&mut rng);
        assert!(idx < 7);
        counts[idx] += 1;
    }
    let total_weight: f64 = ALL.iter().map(|s| s.weight() as f64).sum();
    for (i, s) in ALL.iter().enumerate() {
        let expected = s.weight() as f64 / total_weight;
        let observed = counts[i] as f64 / draws as f64;
        assert!(
            (expected - observed).abs() < 0.01,
            "{s:?}: expected {expected}, observed {observed}"
        );
    }
}

#[test]
fn sampling_is_deterministic() {
    let dist = SpectralType::get_distribution();
    let mut a = Rng64::seed_from_u64(5);
    let mut b = Rng64::seed_from_u64(5);
    for _ in 0..1_000 {
        assert_eq!(dist.sample(&mut a), dist.sample(&mut b));
    }
}
