use bracket_noise::prelude::{FastNoise, FractalType, NoiseType};
use sky::nebula::cloud::{CloudSample, GasCloud};
use sky::nebula::{cloud_layers, generate_nebula, norm_coord, PixelSamples};
use sky::stars::Stars;

fn make_noise(seed: u64, kind: FractalType) -> FastNoise {
    let mut noise = FastNoise::seeded(seed);
    noise.set_noise_type(NoiseType::SimplexFractal);
    noise.set_fractal_type(kind);
    noise.set_fractal_octaves(5);
    noise.set_fractal_gain(0.6);
    noise.set_fractal_lacunarity(2.0);
    noise.set_frequency(2.0);
    noise
}

fn sample_fixed(noise: &FastNoise, x: i64, y: i64) -> i64 {
    let v = noise.get_noise(x as f32 / 1_000_000.0, y as f32 / 1_000_000.0);
    let scaled = (v as f64 * 1_000_000.0).round() as i64;
    scaled.clamp(-2_000_000, 2_000_000)
}

fn cloud_sample(fbm: &FastNoise, billow: &FastNoise, x: i64, y: i64) -> CloudSample {
    if GasCloud::envelope(x, y) < 1 {
        return CloudSample { n_dx: 0, n_dy: 0, n_w: 0, n_a: 0, b1: 0, b2: 0 };
    }
    let n_dx = sample_fixed(fbm, x + 1_700_000, y);
    let n_dy = sample_fixed(fbm, x, y + 3_200_000);
    let (off_x, off_y) = GasCloud::distort_offsets(n_dx, n_dy);
    CloudSample {
        n_dx,
        n_dy,
        n_w: sample_fixed(fbm, x + off_x, y + off_y),
        n_a: sample_fixed(fbm, x - off_x, y - off_y),
        b1: sample_fixed(billow, x, y),
        b2: sample_fixed(billow, x + 1_700_000, y),
    }
}

fn generate(size: usize, seed: u64) -> Vec<u16> {
    let mut gen = Stars::new(size, seed).generate();
    let n = size * size;
    for _ in 0..5 {
        let pass_seed = gen.next_noise_seed();
        let noise = make_noise(pass_seed, FractalType::FBM);
        let raster: Vec<i64> = (0..n)
            .map(|i| {
                sample_fixed(&noise, norm_coord(i % size, size), norm_coord(i / size, size))
            })
            .collect();
        gen.run_pass(&raster);
    }
    let sky = gen.finish();

    let clouds = cloud_layers(seed);
    let fields: Vec<(FastNoise, FastNoise)> = clouds
        .iter()
        .map(|c| (make_noise(c.seed, FractalType::FBM), make_noise(c.seed, FractalType::Billow)))
        .collect();
    let samples: Vec<PixelSamples> = (0..n)
        .map(|i| {
            let x = norm_coord(i % size, size);
            let y = norm_coord(i / size, size);
            PixelSamples {
                first: cloud_sample(&fields[0].0, &fields[0].1, x, y),
                second: cloud_sample(&fields[1].0, &fields[1].1, x, y),
            }
        })
        .collect();
    generate_nebula(size, seed, &sky, &samples).unwrap()
}

#[test]
fn generate_4x4_yields_64_samples() {
    let out = generate(4, 42);
    assert_eq!(out.len(), 4 * 4 * 4);
}

#[test]
fn generate_is_deterministic() {
    let a = generate(8, 42);
    let b = generate(8, 42);
    assert_eq!(a, b);
}

#[test]
fn generate_alpha_channel_is_opaque() {
    let out = generate(8, 7);
    for px in out.chunks(4) {
        assert_eq!(px[3], 65535);
    }
}

#[test]
fn different_seeds_differ() {
    let a = generate(16, 1);
    let b = generate(16, 2);
    assert_ne!(a, b);
}
