use sky::color::Color;
use sky::rng::Rng64;
use sky::stars::spectral_type::SpectralType;
use sky::stars::{rasterize_star, StarShape, Stars};

fn fresh_sky(size: usize, seed: u64) -> Vec<Color> {
    Stars::new(size, seed).generate().finish()
}

#[test]
fn generate_fills_background() {
    let sky = fresh_sky(8, 1);
    assert_eq!(sky.len(), 64);
    for c in &sky {
        assert_eq!(*c, Color::new(20_000, 20_000, 95_000, 1_000_000));
    }
}

#[test]
fn star_disc_containment() {
    let size: usize = 32;
    let before = fresh_sky(size, 1);
    let mut sky = before.clone();
    let x: usize = 10;
    let y: usize = 12;
    let radius: u64 = 3_400_000;
    rasterize_star(
        &mut sky,
        size,
        StarShape::Disc,
        x,
        y,
        radius,
        1_000_000,
        SpectralType::G.color(),
    );
    let ir = (radius / 1_000_000) as usize;
    let mut touched = 0usize;
    for i in 0..sky.len() {
        let px = i % size;
        let py = i / size;
        if sky[i] != before[i] {
            touched += 1;
            let dx = px as i64 - x as i64;
            let dy = py as i64 - y as i64;
            // every mutated pixel lies strictly within the radius
            assert!(
                ((dx * dx + dy * dy) as u64) * 1_000_000_000_000 < radius * radius,
                "pixel ({px},{py}) outside the disc was mutated"
            );
            // and within the declared bounding box
            assert!(dx.unsigned_abs() as usize <= ir);
            assert!(dy.unsigned_abs() as usize <= ir);
        }
    }
    assert!(touched > 0, "the star left no trace");
}

#[test]
fn cross_shape_touches_only_center_row_and_column() {
    let size: usize = 32;
    let before = fresh_sky(size, 1);
    let mut sky = before.clone();
    rasterize_star(
        &mut sky,
        size,
        StarShape::Cross,
        16,
        16,
        5_000_000,
        1_000_000,
        SpectralType::B.color(),
    );
    let mut touched = 0usize;
    for i in 0..sky.len() {
        let px = i % size;
        let py = i / size;
        if sky[i] != before[i] {
            touched += 1;
            assert!(px == 16 || py == 16);
        }
    }
    assert!(touched > 0);
}

#[test]
fn star_at_canvas_edge_stays_on_canvas() {
    let size: usize = 8;
    let mut sky = fresh_sky(size, 1);
    rasterize_star(
        &mut sky,
        size,
        StarShape::Disc,
        0,
        7,
        6_000_000,
        2_000_000,
        SpectralType::O.color(),
    );
    assert_eq!(sky.len(), 64);
    for c in &sky {
        let arr = c.to_array();
        assert_eq!(arr[3], 65535);
    }
}

#[test]
fn next_noise_seed_follows_the_seeded_stream() {
    let mut g = Stars::new(4, 77).generate();
    let mut rng = Rng64::seed_from_u64(77);
    for _ in 0..5 {
        assert_eq!(g.next_noise_seed(), rng.next_u64());
    }
}

#[test]
fn run_pass_is_deterministic() {
    let size: usize = 16;
    let raster: Vec<i64> = (0..size * size)
        .map(|i| ((i as i64 * 37) % 3_000_000) - 1_000_000)
        .collect();
    let mut a = Stars::new(size, 9).generate();
    let mut b = Stars::new(size, 9).generate();
    a.next_noise_seed();
    b.next_noise_seed();
    a.run_pass(&raster);
    b.run_pass(&raster);
    let sa = a.finish();
    let sb = b.finish();
    assert_eq!(sa.len(), sb.len());
    for i in 0..sa.len() {
        assert_eq!(sa[i], sb[i]);
    }
}

#[test]
fn run_pass_places_stars_on_dense_raster() {
    let size: usize = 16;
    // a uniformly bright density map: every candidate is visible
    let raster: Vec<i64> = vec![1_000_000; size * size];
    let mut g = Stars::new(size, 3).generate();
    g.next_noise_seed();
    g.run_pass(&raster);
    let sky = g.finish();
    let bg = Color::new(20_000, 20_000, 95_000, 1_000_000);
    assert!(sky.iter().any(|c| *c != bg), "no star was composited");
}

#[test]
fn run_pass_on_empty_raster_changes_nothing() {
    let size: usize = 16;
    // nonpositive density everywhere: every candidate is invisible
    let raster: Vec<i64> = vec![-500_000; size * size];
    let mut g = Stars::new(size, 3).generate();
    g.next_noise_seed();
    g.run_pass(&raster);
    let sky = g.finish();
    let bg = Color::new(20_000, 20_000, 95_000, 1_000_000);
    assert!(sky.iter().all(|c| *c == bg));
}
