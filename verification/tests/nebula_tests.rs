use sky::color::Color;
use sky::nebula::cloud::{CloudSample, GasCloud};
use sky::nebula::{cloud_layers, generate_nebula, norm_coord, NebulaError, PixelSamples};
use sky::rng::Rng64;

fn zero_sample() -> CloudSample {
    CloudSample { n_dx: 0, n_dy: 0, n_w: 0, n_a: 0, b1: 0, b2: 0 }
}

fn opaque_background(n: usize) -> Vec<Color> {
    (0..n)
        .map(|i| {
            let v = ((i as i64 * 131) % 1_000_000).abs();
            Color::new(v, 1_000_000 - v, 500_000, 1_000_000)
        })
        .collect()
}

#[test]
fn zero_size_is_an_invalid_size() {
    let bg: Vec<Color> = Vec::new();
    let samples: Vec<PixelSamples> = Vec::new();
    assert_eq!(
        generate_nebula(0, 1, &bg, &samples),
        Err(NebulaError::InvalidSize)
    );
}

#[test]
fn short_background_is_reported() {
    let bg = opaque_background(15);
    let samples: Vec<PixelSamples> =
        vec![PixelSamples { first: zero_sample(), second: zero_sample() }; 16];
    assert_eq!(
        generate_nebula(4, 1, &bg, &samples),
        Err(NebulaError::BackgroundTooSmall)
    );
}

#[test]
fn short_samples_are_reported() {
    let bg = opaque_background(16);
    let samples: Vec<PixelSamples> =
        vec![PixelSamples { first: zero_sample(), second: zero_sample() }; 15];
    assert_eq!(
        generate_nebula(4, 1, &bg, &samples),
        Err(NebulaError::SamplesTooSmall)
    );
}

#[test]
fn transparent_clouds_reproduce_the_background_exactly() {
    let size: usize = 8;
    let n = size * size;
    let bg = opaque_background(n);
    // force every cloud alpha to zero: the shifted smooth sample clamps to
    // zero and both billow samples vanish
    let clear = CloudSample { n_dx: 0, n_dy: 0, n_w: 700_000, n_a: -500_000, b1: 0, b2: 0 };
    let samples: Vec<PixelSamples> = vec![PixelSamples { first: clear, second: clear }; n];
    let out = generate_nebula(size, 21, &bg, &samples).unwrap();
    assert_eq!(out.len(), n * 4);
    for i in 0..n {
        let expected = bg[i].to_array();
        for c in 0..4 {
            assert_eq!(out[4 * i + c], expected[c], "pixel {i}, channel {c}");
        }
    }
}

#[test]
fn cloud_layers_draw_their_seeds_in_order() {
    let clouds = cloud_layers(42);
    assert_eq!(clouds.len(), 2);
    let mut rng = Rng64::seed_from_u64(42);
    assert_eq!(clouds[0].seed, rng.next_u64());
    assert_eq!(clouds[1].seed, rng.next_u64());
    assert_eq!(clouds[0].color, Color::new(500_000, 1_000_000, 300_000, 1_000_000));
    assert_eq!(clouds[1].color, Color::new(200_000, 1_000_000, 1_000_000, 800_000));
}

#[test]
fn pixel_outside_the_envelope_is_transparent_black() {
    let cloud = GasCloud::new(Color::new(500_000, 1_000_000, 300_000, 1_000_000), 1);
    let s = CloudSample { n_dx: 1, n_dy: 2, n_w: 3, n_a: 4, b1: 5, b2: 6 };
    // the canvas corner lies outside the paraboloid envelope
    assert_eq!(cloud.pixel(0, 0, &s), Color::splat(0));
}

#[test]
fn pixel_at_canvas_center_uses_the_noise() {
    let cloud = GasCloud::new(Color::new(500_000, 1_000_000, 300_000, 1_000_000), 1);
    let s = CloudSample { n_dx: 0, n_dy: 0, n_w: 500_000, n_a: 500_000, b1: 0, b2: 0 };
    // center: envelope is 0.5, alpha cap 0.4; brightness weight is 1
    let c = cloud.pixel(500_000, 500_000, &s);
    assert_eq!(c, Color::new(500_000, 1_000_000, 300_000, 400_000));
}

#[test]
fn envelope_is_centered() {
    assert_eq!(GasCloud::envelope(500_000, 500_000), 500_000);
    assert!(GasCloud::envelope(0, 0) < 0);
    assert!(GasCloud::envelope(1_000_000, 1_000_000) < 0);
}

#[test]
fn distort_offsets_stay_within_strength() {
    for n in [-2_000_000i64, -500_000, 0, 123_456, 2_000_000] {
        let (dx, dy) = GasCloud::distort_offsets(n, -n);
        assert!((0..=200_000).contains(&dx));
        assert!((0..=200_000).contains(&dy));
    }
}

#[test]
fn norm_coord_covers_the_unit_interval() {
    assert_eq!(norm_coord(0, 4), 0);
    assert_eq!(norm_coord(1, 4), 250_000);
    assert_eq!(norm_coord(3, 4), 750_000);
}
