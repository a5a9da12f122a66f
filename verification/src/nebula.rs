//! The nebula stage: two seeded gas clouds composited over a star background,
//! pixel by pixel, into a quantized 16-bit output buffer.
//!
//! The two clouds' noise seeds are drawn from the stream the nebula seed
//! starts, in declaration order. The noise fields themselves live outside
//! this library: the caller samples them at the probe points the cloud module
//! names and hands one `PixelSamples` per pixel to `generate_nebula`, which
//! folds background and clouds with alpha blending — background first, then
//! the clouds in order — and quantizes the result.

pub mod cloud;

use vstd::prelude::*;

use crate::color::{blend_spec, scale_u16_spec, Color};
use crate::fixed::{lemma_fp_mul_bound, FP_ONE};
use crate::rng::{next_out_spec, next_state_spec, seed_spec, Rng64};
use cloud::{cloud_pixel_spec, lemma_cloud_pixel_bounds, CloudSample, GasCloud};

verus! {

/// The base color of the first, greenish gas cloud.
pub open spec fn cloud_one_color_spec() -> Color {
    Color { r: 500_000, g: FP_ONE, b: 300_000, a: FP_ONE }
}

/// The base color of the second, cyan-ish, slightly translucent gas cloud.
pub open spec fn cloud_two_color_spec() -> Color {
    Color { r: 200_000, g: FP_ONE, b: FP_ONE, a: 800_000 }
}

/// The raw noise samples of one pixel, one set per cloud, in cloud order.
#[derive(Debug, Clone, Copy, PartialEq, Eq, Structural)]
pub struct PixelSamples {
    pub first: CloudSample,
    pub second: CloudSample,
}

impl PixelSamples {
    /// Both sample sets lie in the noise primitive's range.
    pub open spec fn wf(self) -> bool {
        self.first.wf() && self.second.wf()
    }
}

/// What keeps `generate_nebula` from running: a zero canvas size, or a buffer
/// with fewer entries than the canvas has pixels.
#[derive(Debug, Clone, Copy, PartialEq, Eq, Structural)]
pub enum NebulaError {
    InvalidSize,
    BackgroundTooSmall,
    SamplesTooSmall,
}

/// A normalized canvas coordinate: the pixel coordinate scaled into the unit
/// interval.
pub open spec fn norm_coord_spec(p: int, size: int) -> int {
    (p * (FP_ONE as int)) / size
}

/// One composited nebula pixel: the background, then the first cloud, then
/// the second, folded left to right with source-over blending.
pub open spec fn nebula_pixel_spec(bg: Color, s: PixelSamples, x: int, y: int) -> Color {
    blend_spec(
        blend_spec(bg, cloud_pixel_spec(cloud_one_color_spec(), x, y, s.first)),
        cloud_pixel_spec(cloud_two_color_spec(), x, y, s.second),
    )
}

/// The full quantized output buffer: for each pixel in row-major order, the
/// four 16-bit channels of its composited color.
pub open spec fn nebula_out_spec(bg: Seq<Color>, samples: Seq<PixelSamples>, size: int) -> Seq<
    u16,
> {
    Seq::new(
        (size * size * 4) as nat,
        |j: int|
            {
                let i = j / 4;
                let c = nebula_pixel_spec(
                    bg[i],
                    samples[i],
                    norm_coord_spec(i % size, size),
                    norm_coord_spec((i / size) % size, size),
                );
                if j % 4 == 0 {
                    scale_u16_spec(c.r as int) as u16
                } else if j % 4 == 1 {
                    scale_u16_spec(c.g as int) as u16
                } else if j % 4 == 2 {
                    scale_u16_spec(c.b as int) as u16
                } else {
                    scale_u16_spec(c.a as int) as u16
                }
            },
    )
}

/// The two gas clouds a nebula seed describes: fixed base colors, noise seeds
/// drawn sequentially from the seeded stream.
pub fn cloud_layers(seed: u64) -> (v: Vec<GasCloud>)
    ensures
        v@.len() == 2,
        v@[0] == (GasCloud {
            color: cloud_one_color_spec(),
            seed: next_out_spec(seed_spec(seed)),
        }),
        v@[1] == (GasCloud {
            color: cloud_two_color_spec(),
            seed: next_out_spec(next_state_spec(seed_spec(seed))),
        }),
{
    let mut rng = Rng64::seed_from_u64(seed);
    let s1 = rng.next_u64();
    let s2 = rng.next_u64();
    let mut v: Vec<GasCloud> = Vec::new();
    v.push(GasCloud::new(Color::new(500_000, 1_000_000, 300_000, 1_000_000), s1));
    v.push(GasCloud::new(Color::new(200_000, 1_000_000, 1_000_000, 800_000), s2));
    v
}

/// A normalized canvas coordinate, in fixed point.
pub fn norm_coord(p: usize, size: usize) -> (r: i64)
    requires
        1 <= size,
        p < size,
        size <= 0x1_0000_0000,
    ensures
        r == norm_coord_spec(p as int, size as int),
        0 <= r <= FP_ONE,
{
    let wide: i64 = (p as i64) * 1_000_000;
    proof {
        assert((p as int) * 1_000_000 <= (size as int) * 1_000_000) by (nonlinear_arith)
            requires
                p < size,
        ;
        assert(0 <= (p as int) * 1_000_000) by (nonlinear_arith)
            requires
                0 <= p,
        ;
        crate::fixed::lemma_div_shrinks_nonneg((p as int) * 1_000_000, size as int);
        assert(((p as int) * 1_000_000) / (size as int) <= FP_ONE as int) by (nonlinear_arith)
            requires
                p < size,
                size >= 1,
        ;
    }
    wide / (size as i64)
}

/// Blending a cloud color over an opaque unit-interval background keeps the
/// pixel opaque and within fixed channel bounds.
proof fn lemma_mid_blend_bounds(bg: Color, fg: Color)
    requires
        bg.unit(),
        bg.a == FP_ONE,
        -6_000_000 <= fg.r <= 6_000_000,
        -6_000_000 <= fg.g <= 6_000_000,
        -6_000_000 <= fg.b <= 6_000_000,
        -3_400_000 <= fg.a <= 3_400_000,
    ensures
        blend_spec(bg, fg).a == FP_ONE,
        -30_000_000 <= blend_spec(bg, fg).r <= 30_000_000,
        -30_000_000 <= blend_spec(bg, fg).g <= 30_000_000,
        -30_000_000 <= blend_spec(bg, fg).b <= 30_000_000,
{
    if fg.a <= 0 {
    } else {
        crate::color::lemma_blend_opaque(bg, fg);
        lemma_fp_mul_bound(fg.r as int, fg.a as int, 6_000_000, 3_400_000);
        lemma_fp_mul_bound(fg.g as int, fg.a as int, 6_000_000, 3_400_000);
        lemma_fp_mul_bound(fg.b as int, fg.a as int, 6_000_000, 3_400_000);
        lemma_fp_mul_bound(bg.r as int, FP_ONE as int - fg.a as int, FP_ONE as int, 4_400_000);
        lemma_fp_mul_bound(bg.g as int, FP_ONE as int - fg.a as int, FP_ONE as int, 4_400_000);
        lemma_fp_mul_bound(bg.b as int, FP_ONE as int - fg.a as int, FP_ONE as int, 4_400_000);
    }
}

/// Generate a gaseous nebula in front of the supplied background.
///
/// The background must hold one opaque color per canvas pixel and the samples
/// one entry per pixel; a zero size or a buffer that is too small is reported
/// as a configuration error, never read out of bounds.
pub fn generate_nebula(
    size: usize,
    seed: u64,
    background: &Vec<Color>,
    samples: &Vec<PixelSamples>,
) -> (out: Result<Vec<u16>, NebulaError>)
    requires
        size * size * 4 <= usize::MAX,
        forall|i: int|
            0 <= i < background@.len() ==> (#[trigger] background@[i]).unit() && background@[i].a
                == FP_ONE,
        forall|i: int| 0 <= i < samples@.len() ==> (#[trigger] samples@[i]).wf(),
        size <= 0x1_0000_0000,
    ensures
        (out == Result::<Vec<u16>, NebulaError>::Err(NebulaError::InvalidSize)) <==> size == 0,
        (out == Result::<Vec<u16>, NebulaError>::Err(NebulaError::BackgroundTooSmall)) <==> (size
            > 0 && background@.len() < size * size),
        (out == Result::<Vec<u16>, NebulaError>::Err(NebulaError::SamplesTooSmall)) <==> (size > 0
            && background@.len() >= size * size && samples@.len() < size * size),
        out is Ok ==> out->Ok_0@ == nebula_out_spec(background@, samples@, size as int),
{
    if size == 0 {
        return Err(NebulaError::InvalidSize);
    }
    proof {
        assert(size * size <= size * size * 4) by (nonlinear_arith)
            requires
                size >= 1,
        ;
        assert(size <= size * size) by (nonlinear_arith)
            requires
                size >= 1,
        ;
    }
    let n: usize = size * size;
    if background.len() < n {
        return Err(NebulaError::BackgroundTooSmall);
    }
    if samples.len() < n {
        return Err(NebulaError::SamplesTooSmall);
    }
    let clouds = cloud_layers(seed);
    let cloud1 = &clouds[0];
    let cloud2 = &clouds[1];
    let mut out: Vec<u16> = Vec::new();
    let ghost outspec = nebula_out_spec(background@, samples@, size as int);
    let mut i: usize = 0;
    while i < n
        invariant
            1 <= size,
            n == size * size,
            size * size * 4 <= usize::MAX,
            size <= 0x1_0000_0000,
            background@.len() >= n,
            samples@.len() >= n,
            forall|k: int|
                0 <= k < background@.len() ==> (#[trigger] background@[k]).unit()
                    && background@[k].a == FP_ONE,
            forall|k: int| 0 <= k < samples@.len() ==> (#[trigger] samples@[k]).wf(),
            cloud1.color == cloud_one_color_spec(),
            cloud2.color == cloud_two_color_spec(),
            0 <= i <= n,
            out@.len() == 4 * i,
            outspec == nebula_out_spec(background@, samples@, size as int),
            outspec.len() == 4 * n,
            forall|j: int| 0 <= j < 4 * i ==> out@[j] == outspec[j],
        decreases n - i,
    {
        let px: usize = i % size;
        let py: usize = i / size;
        proof {
            crate::stars::lemma_index_on_canvas(i as int, size as int);
        }
        let x = norm_coord(px, size);
        let y = norm_coord(py, size);
        let bgc: Color = background[i];
        let s: PixelSamples = samples[i];
        let c1 = cloud1.pixel(x, y, &s.first);
        let c2 = cloud2.pixel(x, y, &s.second);
        proof {
            lemma_cloud_pixel_bounds(cloud1.color, x as int, y as int, s.first);
            lemma_cloud_pixel_bounds(cloud2.color, x as int, y as int, s.second);
            lemma_mid_blend_bounds(bgc, c1);
        }
        let acc1 = bgc.blend(c1);
        let acc2 = acc1.blend(c2);
        let quad = acc2.to_array();
        proof {
            assert((i as int) / size as int == ((i as int) / (size as int)) % (size as int)) by {
                vstd::arithmetic::div_mod::lemma_small_mod(
                    ((i as int) / (size as int)) as nat,
                    size as nat,
                );
            }
            assert(acc2 == nebula_pixel_spec(
                background@[i as int],
                samples@[i as int],
                norm_coord_spec(i as int % size as int, size as int),
                norm_coord_spec((i as int / size as int) % size as int, size as int),
            ));
            assert forall|c: int| 0 <= c < 4 implies outspec[4 * i + c] == quad[c] by {
                vstd::arithmetic::div_mod::lemma_fundamental_div_mod_converse(
                    4 * i + c,
                    4,
                    i as int,
                    c,
                );
            }
        }
        out.push(quad[0]);
        out.push(quad[1]);
        out.push(quad[2]);
        out.push(quad[3]);
        i = i + 1;
    }
    proof {
        assert(out@ =~= outspec);
    }
    Ok(out)
}

} // verus!
