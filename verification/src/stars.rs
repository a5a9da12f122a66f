//! The star-field generator: a stochastic population of point-light stars
//! composited sequentially onto a dark background.
//!
//! Generation runs in five passes. Each pass owes its star density to a fresh
//! noise field: the caller draws the pass seed with `next_noise_seed`, samples
//! the continuous noise primitive over the canvas grid, and hands the sampled
//! raster back to `run_pass`, which draws candidate positions, rejects the
//! ones the density map leaves invisible, samples a spectral class and radius
//! for the rest, and rasterizes each star onto the shared sky buffer. All
//! decisions are exact functions of the generator state and the raster.

pub mod spectral_type;

use vstd::prelude::*;

use crate::color::{blend_spec, Color};
use crate::fixed::{
    clamp_fp, clamp_spec, fp_div, fp_div_spec, fp_mul, fp_mul_spec, isqrt, isqrt_spec,
    lemma_div_ordered, lemma_fp_mul_unit, FP_ONE,
};
use crate::rng::{next_out_spec, next_state_spec, scale_below_spec, seed_spec, Rng64};
use spectral_type::{
    color_spec, cum_weight_spec, from_dist_spec, radius_spec, SpectralDist, SpectralType,
};

verus! {

/// How many star passes a generation runs.
pub const STAR_PASSES: usize = 5;

/// How many candidate positions each pass draws.
pub const CANDIDATES_PER_PASS: usize = 750;

/// The gain applied to the density noise before the visibility test.
pub const DENSITY_GAIN: i64 = 1_500_000;

/// The smallest scaled density at which a candidate star is visible. The
/// density is a fixed-point value, so anything below one millionth — in
/// particular anything nonpositive — is treated as starless.
pub const ALPHA_VISIBLE_MIN: i64 = 1;

/// The fixed dark-blue background color of the sky.
pub open spec fn background_spec() -> Color {
    Color { r: 20_000, g: 20_000, b: 95_000, a: FP_ONE }
}

/// How a star is rasterized around its center.
#[derive(Debug, Clone, Copy, PartialEq, Eq, Structural)]
pub enum StarShape {
    /// Fill the whole disc around the center.
    Disc,
    /// Touch only the pixels sharing the center's row or column.
    Cross,
}

/// Whether the pixel at `(px, py)` belongs to the star at `(x, y)` with the
/// given fixed-point radius: its distance to the center is below the radius
/// (compared exactly on squares), and, for the cross shape, it shares the
/// center's row or column.
pub open spec fn star_hit_spec(
    px: int,
    py: int,
    x: int,
    y: int,
    radius: int,
    shape: StarShape,
) -> bool {
    let dx = px - x;
    let dy = py - y;
    &&& (dx * dx + dy * dy) * 1_000_000_000_000 < radius * radius
    &&& (shape == StarShape::Cross ==> px == x || py == y)
}

/// The alpha a star contributes at squared pixel distance `d2` from its
/// center: the candidate's density alpha clamped to the unit interval, halved,
/// and scaled by the linear radial falloff `1 - dist / radius`.
pub open spec fn star_palpha_spec(alpha: int, d2: int, radius: int) -> int {
    let dist = isqrt_spec((d2 * 1_000_000_000_000) as nat) as int;
    let falloff = FP_ONE as int - fp_div_spec(dist, radius);
    fp_mul_spec(fp_mul_spec(clamp_spec(alpha, 0, FP_ONE as int), 500_000), falloff)
}

/// The star color as composited at squared pixel distance `d2`: the spectral
/// color with its alpha scaled by the radial contribution.
pub open spec fn star_fg_spec(scolor: Color, alpha: int, d2: int, radius: int) -> Color {
    Color {
        r: scolor.r,
        g: scolor.g,
        b: scolor.b,
        a: fp_mul_spec(scolor.a as int, star_palpha_spec(alpha, d2, radius)) as i64,
    }
}

/// The sky buffer after one star is rasterized onto it: every pixel the star
/// hits is blended with the star's radially weighted color, every other pixel
/// is untouched.
pub open spec fn rasterized_sky_spec(
    sky: Seq<Color>,
    size: int,
    x: int,
    y: int,
    radius: int,
    alpha: int,
    scolor: Color,
    shape: StarShape,
) -> Seq<Color> {
    Seq::new(
        sky.len(),
        |i: int|
            {
                let px = i % size;
                let py = i / size;
                if star_hit_spec(px, py, x, y, radius, shape) {
                    let dx = px - x;
                    let dy = py - y;
                    blend_spec(sky[i], star_fg_spec(scolor, alpha, dx * dx + dy * dy, radius))
                } else {
                    sky[i]
                }
            },
    )
}

/// The spectral-class index the fixed cumulative weight table assigns to a
/// scaled draw.
pub open spec fn pick_spec(u: int) -> int {
    if u < 3 {
        0
    } else if u < 13_003 {
        1
    } else if u < 73_003 {
        2
    } else if u < 373_003 {
        3
    } else if u < 1_133_003 {
        4
    } else if u < 2_343_003 {
        5
    } else {
        6
    }
}

/// One candidate star: two position draws, the density visibility test, and —
/// for visible candidates — a spectral class draw, a radius draw, and the
/// rasterization onto the sky.
pub open spec fn candidate_spec(
    sky: Seq<Color>,
    rng: Rng64,
    raster: Seq<i64>,
    size: int,
    shape: StarShape,
) -> (Seq<Color>, Rng64) {
    let x = scale_below_spec(next_out_spec(rng), size as u64);
    let rng1 = next_state_spec(rng);
    let y = scale_below_spec(next_out_spec(rng1), size as u64);
    let rng2 = next_state_spec(rng1);
    let alpha = fp_mul_spec(raster[y * size + x] as int, DENSITY_GAIN as int);
    if alpha < ALPHA_VISIBLE_MIN as int {
        (sky, rng2)
    } else {
        let u = scale_below_spec(next_out_spec(rng2), cum_weight_spec(6) as u64);
        let rng3 = next_state_spec(rng2);
        let stype = from_dist_spec(pick_spec(u));
        let (lo, hi) = radius_spec(stype);
        let rdraw = scale_below_spec(next_out_spec(rng3), (hi - lo) as u64);
        let rng4 = next_state_spec(rng3);
        let radius = lo + rdraw;
        (
            rasterized_sky_spec(sky, size, x, y, radius, alpha, color_spec(stype), shape),
            rng4,
        )
    }
}

/// The sky and generator state after the first `k` candidates of a pass.
pub open spec fn pass_spec(
    sky: Seq<Color>,
    rng: Rng64,
    raster: Seq<i64>,
    size: int,
    shape: StarShape,
    k: nat,
) -> (Seq<Color>, Rng64)
    decreases k,
{
    if k == 0 {
        (sky, rng)
    } else {
        let prev = pass_spec(sky, rng, raster, size, shape, (k - 1) as nat);
        candidate_spec(prev.0, prev.1, raster, size, shape)
    }
}

/// A raster of noise samples suitable for a star pass: one sample per canvas
/// pixel, each within the noise primitive's range.
pub open spec fn raster_wf_spec(raster: Seq<i64>, size: int) -> bool {
    &&& raster.len() == size * size
    &&& forall|i: int| 0 <= i < raster.len() ==> -2_000_000 <= #[trigger] raster[i] <= 2_000_000
}

/// An opaque, unit-interval sky buffer.
pub open spec fn sky_wf_spec(sky: Seq<Color>) -> bool {
    forall|i: int|
        0 <= i < sky.len() ==> (#[trigger] sky[i]).unit() && sky[i].a == FP_ONE
}

/// The sky buffer while one star's bounding box is being walked column by
/// column: pixels the star hits in columns left of `px`, or in column `px`
/// above row `py`, are already blended; everything else is untouched.
pub open spec fn rast_until_spec(
    sky: Seq<Color>,
    size: int,
    x: int,
    y: int,
    radius: int,
    alpha: int,
    scolor: Color,
    shape: StarShape,
    px: int,
    py: int,
) -> Seq<Color> {
    Seq::new(
        sky.len(),
        |i: int|
            {
                let cx = i % size;
                let cy = i / size;
                if star_hit_spec(cx, cy, x, y, radius, shape) && (cx < px || (cx == px && cy
                    < py)) {
                    let dx = cx - x;
                    let dy = cy - y;
                    blend_spec(sky[i], star_fg_spec(scolor, alpha, dx * dx + dy * dy, radius))
                } else {
                    sky[i]
                }
            },
    )
}

/// A pixel a star hits lies within the star's pixel bounding box: at most
/// `radius / FP_ONE` away from the center on each axis.
pub proof fn lemma_hit_in_box(
    px: int,
    py: int,
    x: int,
    y: int,
    radius: int,
    shape: StarShape,
    ir: int,
)
    requires
        star_hit_spec(px, py, x, y, radius, shape),
        ir == radius / (FP_ONE as int),
        1 <= radius,
    ensures
        x - ir <= px <= x + ir,
        y - ir <= py <= y + ir,
{
    let dx = px - x;
    let dy = py - y;
    vstd::arithmetic::div_mod::lemma_fundamental_div_mod(radius, FP_ONE as int);
    assert(radius < (ir + 1) * 1_000_000);
    assert(dx * dx + dy * dy < (ir + 1) * (ir + 1)) by (nonlinear_arith)
        requires
            (dx * dx + dy * dy) * 1_000_000_000_000 < radius * radius,
            0 <= radius < (ir + 1) * 1_000_000,
    ;
    assert(-ir <= dx <= ir && -ir <= dy <= ir) by (nonlinear_arith)
        requires
            dx * dx + dy * dy < (ir + 1) * (ir + 1),
            0 <= ir,
    ;
}

/// The column and row of a pixel index lie on the canvas.
pub proof fn lemma_index_on_canvas(i: int, size: int)
    requires
        1 <= size,
        0 <= i < size * size,
    ensures
        0 <= i % size < size,
        0 <= i / size < size,
        i == (i / size) * size + (i % size),
{
    vstd::arithmetic::div_mod::lemma_mod_bound(i, size);
    vstd::arithmetic::div_mod::lemma_fundamental_div_mod(i, size);
    assert(i / size < size) by (nonlinear_arith)
        requires
            i < size * size,
            size >= 1,
            i == size * (i / size) + (i % size),
            0 <= i % size,
    ;
    assert(0 <= i / size) by (nonlinear_arith)
        requires
            0 <= i,
            size >= 1,
            i == size * (i / size) + (i % size),
            i % size < size,
    ;
    assert((i / size) * size == size * (i / size)) by (nonlinear_arith);
}

/// The pixel index of a canvas coordinate recovers that coordinate.
pub proof fn lemma_coord_to_index(px: int, py: int, size: int)
    requires
        1 <= size,
        0 <= px < size,
        0 <= py < size,
    ensures
        0 <= py * size + px < size * size,
        (py * size + px) % size == px,
        (py * size + px) / size == py,
{
    vstd::arithmetic::div_mod::lemma_fundamental_div_mod_converse(
        py * size + px,
        size,
        py,
        px,
    );
    assert(py * size + px == size * py + px) by (nonlinear_arith);
    assert(0 <= py * size + px < size * size) by (nonlinear_arith)
        requires
            0 <= px < size,
            0 <= py < size,
    ;
}

/// Rasterize one star onto the sky buffer: every pixel strictly within
/// `radius` of the center `(x, y)` (and on the center's row or column, for the
/// cross shape) is blended with the star color, its alpha scaled by the
/// candidate's density alpha and a linear radial falloff. No pixel outside the
/// star's bounding box is touched.
pub fn rasterize_star(
    sky: &mut Vec<Color>,
    size: usize,
    shape: StarShape,
    x: usize,
    y: usize,
    radius: u64,
    alpha: i64,
    scolor: Color,
)
    requires
        old(sky)@.len() == size * size,
        sky_wf_spec(old(sky)@),
        1 <= size,
        x < size,
        y < size,
        1 <= radius <= 7_500_000,
        0 <= alpha <= 3_000_000,
        scolor.unit(),
        scolor.a == FP_ONE,
    ensures
        final(sky)@ == rasterized_sky_spec(
            old(sky)@,
            size as int,
            x as int,
            y as int,
            radius as int,
            alpha as int,
            scolor,
            shape,
        ),
        sky_wf_spec(final(sky)@),
{
    let ghost orig = sky@;
    // the buffer length is a usize, so the index arithmetic below cannot
    // overflow the address space
    let _len: usize = sky.len();
    let ir: usize = (radius / 1_000_000) as usize;
    let xmin: usize = if x <= ir {
        0
    } else {
        x - ir
    };
    let xmax: usize = if size - 1 - x <= ir {
        size - 1
    } else {
        x + ir
    };
    let ymin: usize = if y <= ir {
        0
    } else {
        y - ir
    };
    let ymax: usize = if size - 1 - y <= ir {
        size - 1
    } else {
        y + ir
    };

    let mut px: usize = xmin;
    proof {
        assert(sky@ =~= rast_until_spec(
            orig,
            size as int,
            x as int,
            y as int,
            radius as int,
            alpha as int,
            scolor,
            shape,
            px as int,
            ymin as int,
        )) by {
            assert forall|i: int| 0 <= i < orig.len() implies rast_until_spec(
                orig,
                size as int,
                x as int,
                y as int,
                radius as int,
                alpha as int,
                scolor,
                shape,
                px as int,
                ymin as int,
            )[i] == orig[i] by {
                lemma_index_on_canvas(i, size as int);
                if star_hit_spec(
                    i % (size as int),
                    i / (size as int),
                    x as int,
                    y as int,
                    radius as int,
                    shape,
                ) {
                    lemma_hit_in_box(
                        i % (size as int),
                        i / (size as int),
                        x as int,
                        y as int,
                        radius as int,
                        shape,
                        ir as int,
                    );
                }
            }
        }
    }
    while px <= xmax
        invariant
            old(sky)@ == orig,
            orig.len() == size * size,
            sky_wf_spec(orig),
            sky_wf_spec(sky@),
            1 <= size,
            x < size,
            y < size,
            1 <= radius <= 7_500_000,
            0 <= alpha <= 3_000_000,
            scolor.unit(),
            scolor.a == FP_ONE,
            ir == radius / 1_000_000,
            xmin == if x <= ir { 0 } else { x - ir },
            xmax == if x + ir > size - 1 { (size - 1) as int } else { (x + ir) as int },
            ymin == if y <= ir { 0 } else { y - ir },
            ymax == if y + ir > size - 1 { (size - 1) as int } else { (y + ir) as int },
            xmin <= px <= xmax + 1,
            sky@ == rast_until_spec(
                orig,
                size as int,
                x as int,
                y as int,
                radius as int,
                alpha as int,
                scolor,
                shape,
                px as int,
                ymin as int,
            ),
        decreases xmax + 1 - px,
    {
        let mut py: usize = ymin;
        while py <= ymax
            invariant
                old(sky)@ == orig,
                orig.len() == size * size,
                sky_wf_spec(orig),
                sky_wf_spec(sky@),
                1 <= size,
                x < size,
                y < size,
                1 <= radius <= 7_500_000,
                0 <= alpha <= 3_000_000,
                scolor.unit(),
                scolor.a == FP_ONE,
                ir == radius / 1_000_000,
                xmin == if x <= ir { 0 } else { x - ir },
                xmax == if x + ir > size - 1 { (size - 1) as int } else { (x + ir) as int },
                ymin == if y <= ir { 0 } else { y - ir },
                ymax == if y + ir > size - 1 { (size - 1) as int } else { (y + ir) as int },
                xmin <= px <= xmax,
                ymin <= py <= ymax + 1,
                sky@ == rast_until_spec(
                    orig,
                    size as int,
                    x as int,
                    y as int,
                    radius as int,
                    alpha as int,
                    scolor,
                    shape,
                    px as int,
                    py as int,
                ),
            decreases ymax + 1 - py,
        {
            rasterize_pixel(
                sky,
                size,
                shape,
                x,
                y,
                radius,
                alpha,
                scolor,
                px,
                py,
                Ghost(orig),
                Ghost(ir as int),
            );
            py = py + 1;
        }
        proof {
            lemma_rast_column_done(
                orig,
                size as int,
                x as int,
                y as int,
                radius as int,
                alpha as int,
                scolor,
                shape,
                px as int,
                ymin as int,
                ymax as int,
                ir as int,
            );
        }
        px = px + 1;
    }
    proof {
        assert(sky@ =~= rasterized_sky_spec(
            orig,
            size as int,
            x as int,
            y as int,
            radius as int,
            alpha as int,
            scolor,
            shape,
        )) by {
            assert forall|i: int| 0 <= i < orig.len() implies sky@[i] == rasterized_sky_spec(
                orig,
                size as int,
                x as int,
                y as int,
                radius as int,
                alpha as int,
                scolor,
                shape,
            )[i] by {
                lemma_index_on_canvas(i, size as int);
                if star_hit_spec(
                    i % (size as int),
                    i / (size as int),
                    x as int,
                    y as int,
                    radius as int,
                    shape,
                ) {
                    lemma_hit_in_box(
                        i % (size as int),
                        i / (size as int),
                        x as int,
                        y as int,
                        radius as int,
                        shape,
                        ir as int,
                    );
                }
            }
        }
    }
}

/// Rasterize one pixel of a star's bounding box: blend the star color onto
/// the pixel when the star hits it, leave it untouched otherwise.
#[verifier::rlimit(30)]
fn rasterize_pixel(
    sky: &mut Vec<Color>,
    size: usize,
    shape: StarShape,
    x: usize,
    y: usize,
    radius: u64,
    alpha: i64,
    scolor: Color,
    px: usize,
    py: usize,
    orig: Ghost<Seq<Color>>,
    ir: Ghost<int>,
)
    requires
        old(sky)@.len() == size * size,
        orig@.len() == size * size,
        sky_wf_spec(orig@),
        sky_wf_spec(old(sky)@),
        1 <= size,
        x < size,
        y < size,
        px < size,
        py < size,
        1 <= radius <= 7_500_000,
        0 <= alpha <= 3_000_000,
        scolor.unit(),
        scolor.a == FP_ONE,
        ir@ == radius as int / (FP_ONE as int),
        x - ir@ <= px <= x + ir@,
        old(sky)@ == rast_until_spec(
            orig@,
            size as int,
            x as int,
            y as int,
            radius as int,
            alpha as int,
            scolor,
            shape,
            px as int,
            py as int,
        ),
    ensures
        final(sky)@ == rast_until_spec(
            orig@,
            size as int,
            x as int,
            y as int,
            radius as int,
            alpha as int,
            scolor,
            shape,
            px as int,
            py as int + 1,
        ),
        sky_wf_spec(final(sky)@),
{
    let ghost before = sky@;
    let ghost after = rast_until_spec(
        orig@,
        size as int,
        x as int,
        y as int,
        radius as int,
        alpha as int,
        scolor,
        shape,
        px as int,
        py as int + 1,
    );
    let skip_off_axis = match shape {
        StarShape::Cross => px != x && py != y,
        StarShape::Disc => false,
    };
    let dx: usize = if px >= x {
        px - x
    } else {
        x - px
    };
    let dy: usize = if py >= y {
        py - y
    } else {
        y - py
    };
    // the buffer length is a usize, so the index arithmetic below cannot
    // overflow the address space
    let _len: usize = sky.len();
    let ghost cdx = px as int - x as int;
    let ghost cdy = py as int - y as int;
    proof {
        lemma_coord_to_index(px as int, py as int, size as int);
        assert(cdx * cdx == dx * dx && cdy * cdy == dy * dy) by (nonlinear_arith)
            requires
                (cdx == dx || cdx == -(dx as int)) && (cdy == dy || cdy == -(dy as int)),
        ;
    }
    if skip_off_axis {
        proof {
            assert(before =~= after);
        }
        return ;
    }
    if dx > 7 || dy > 7 {
        proof {
            assert(dx * dx + dy * dy >= 64) by (nonlinear_arith)
                requires
                    dx >= 8 || dy >= 8,
            ;
            assert((cdx * cdx + cdy * cdy) * 1_000_000_000_000 >= radius * radius)
                by (nonlinear_arith)
                requires
                    cdx * cdx + cdy * cdy >= 64,
                    0 <= radius <= 7_500_000,
            ;
            assert(before =~= after);
        }
        return ;
    }
    proof {
        assert(dx * dx <= 49 && dy * dy <= 49) by (nonlinear_arith)
            requires
                dx <= 7,
                dy <= 7,
        ;
        assert(radius * radius <= 7_500_000 * 7_500_000) by (nonlinear_arith)
            requires
                radius <= 7_500_000,
        ;
    }
    let d2: usize = dx * dx + dy * dy;
    let d2e: u64 = (d2 as u64) * 1_000_000_000_000;
    let r2: u64 = radius * radius;
    if d2e >= r2 {
        proof {
            assert(before =~= after);
        }
        return ;
    }
    let dist: u64 = isqrt(d2e);
    proof {
        assert(dist < radius) by (nonlinear_arith)
            requires
                dist * dist <= d2e,
                d2e < radius * radius,
                0 <= dist,
                0 <= radius,
        ;
    }
    let fo: i64 = 1_000_000 - fp_div(dist as i64, radius as i64);
    proof {
        assert((dist as int) * 1_000_000 <= (radius as int - 1) * 1_000_000) by (nonlinear_arith)
            requires
                dist < radius,
        ;
        lemma_div_ordered((dist as int) * 1_000_000, (radius as int - 1) * 1_000_000, radius as int);
        assert(((radius as int - 1) * 1_000_000) / (radius as int) < 1_000_000) by (nonlinear_arith)
            requires
                radius >= 1,
        ;
        crate::fixed::lemma_div_shrinks_nonneg((dist as int) * 1_000_000, radius as int);
        assert(0 <= (dist as int) * 1_000_000) by (nonlinear_arith)
            requires
                0 <= dist,
        ;
    }
    let ca: i64 = clamp_fp(alpha, 0, 1_000_000);
    let pa1: i64 = fp_mul(ca, 500_000);
    proof {
        crate::fixed::lemma_fp_mul_le_second(ca as int, 500_000);
        assert(ca * 500_000 >= 0) by (nonlinear_arith)
            requires
                ca >= 0,
        ;
        lemma_div_ordered(0, ca as int * 500_000, FP_ONE as int);
        lemma_fp_mul_unit(ca as int, 500_000);
    }
    let pa: i64 = fp_mul(pa1, fo);
    proof {
        lemma_fp_mul_unit(pa1 as int, fo as int);
    }
    let fg = scolor.mul_alpha(pa);
    proof {
        crate::fixed::lemma_fp_mul_one_left(pa as int);
        assert(fg.a == pa);
    }
    let idx: usize = py * size + px;
    proof {
        assert(sky@[idx as int].unit() && sky@[idx as int].a == FP_ONE);
        assert(sky@[idx as int] == orig@[idx as int]);
    }
    let bgc: Color = sky[idx];
    let nc = bgc.blend(fg);
    proof {
        crate::color::lemma_blend_opaque_unit(bgc, fg);
    }
    sky.set(idx, nc);
    proof {
        assert(fg == star_fg_spec(scolor, alpha as int, d2 as int, radius as int));
        assert(sky@ =~= after) by {
            assert forall|i: int| 0 <= i < orig@.len() implies sky@[i] == after[i] by {
                lemma_index_on_canvas(i, size as int);
                if i != idx as int {
                    assert(sky@[i] == before[i]);
                }
            }
        }
    }
}

/// Star disc containment: every pixel that rasterizing a star mutates lies
/// strictly within the star's radius of its center (compared exactly on
/// squared distances), and within the star's pixel bounding box — no pixel
/// outside it is touched.
pub proof fn lemma_star_disc_containment(
    sky: Seq<Color>,
    size: int,
    x: int,
    y: int,
    radius: int,
    alpha: int,
    scolor: Color,
    shape: StarShape,
    i: int,
)
    requires
        1 <= size,
        sky.len() == size * size,
        1 <= radius,
        0 <= i < sky.len(),
        rasterized_sky_spec(sky, size, x, y, radius, alpha, scolor, shape)[i] != sky[i],
    ensures
        ({
            let dx = i % size - x;
            let dy = i / size - y;
            &&& (dx * dx + dy * dy) * 1_000_000_000_000 < radius * radius
            &&& x - radius / (FP_ONE as int) <= i % size <= x + radius / (FP_ONE as int)
            &&& y - radius / (FP_ONE as int) <= i / size <= y + radius / (FP_ONE as int)
        }),
{
    lemma_index_on_canvas(i, size);
    let px = i % size;
    let py = i / size;
    if !star_hit_spec(px, py, x, y, radius, shape) {
        assert(rasterized_sky_spec(sky, size, x, y, radius, alpha, scolor, shape)[i] == sky[i]);
    }
    lemma_hit_in_box(px, py, x, y, radius, shape, radius / (FP_ONE as int));
}

/// After the rows of column `px` are walked, the partial rasterization equals
/// the one that starts the next column.
proof fn lemma_rast_column_done(
    orig: Seq<Color>,
    size: int,
    x: int,
    y: int,
    radius: int,
    alpha: int,
    scolor: Color,
    shape: StarShape,
    px: int,
    ymin: int,
    ymax: int,
    ir: int,
)
    requires
        1 <= size,
        orig.len() == size * size,
        0 <= x < size,
        0 <= y < size,
        1 <= radius,
        ir == radius / (FP_ONE as int),
        ymin == if y <= ir { 0int } else { y - ir },
        ymax == if y + ir > size - 1 { size - 1 } else { y + ir },
    ensures
        rast_until_spec(orig, size, x, y, radius, alpha, scolor, shape, px, ymax + 1)
            =~= rast_until_spec(orig, size, x, y, radius, alpha, scolor, shape, px + 1, ymin),
{
    let a = rast_until_spec(orig, size, x, y, radius, alpha, scolor, shape, px, ymax + 1);
    let b = rast_until_spec(orig, size, x, y, radius, alpha, scolor, shape, px + 1, ymin);
    assert forall|i: int| 0 <= i < orig.len() implies a[i] == b[i] by {
        lemma_index_on_canvas(i, size);
        let cx = i % size;
        let cy = i / size;
        if star_hit_spec(cx, cy, x, y, radius, shape) {
            lemma_hit_in_box(cx, cy, x, y, radius, shape, ir);
        }
    }
}

/// The description of a star field to generate: the canvas size, the seed of
/// its pseudo-random stream, and the rasterization shape.
#[derive(Debug, Clone, Copy, PartialEq, Eq, Structural)]
pub struct Stars {
    pub size: usize,
    pub seed: u64,
    pub shape: StarShape,
}

/// A star-field generation in progress: the seeded stream, the pass counter,
/// and the sky buffer the passes composite onto.
pub struct StarGen {
    pub rng: Rng64,
    pub size: usize,
    pub shape: StarShape,
    pub passes_done: usize,
    pub dist: SpectralDist,
    pub sky: Vec<Color>,
}

impl Stars {
    /// Describe a star field of the given canvas size and seed, rasterizing
    /// full discs.
    pub fn new(size: usize, seed: u64) -> (s: Stars)
        ensures
            s == (Stars { size, seed, shape: StarShape::Disc }),
    {
        Stars { size, seed, shape: StarShape::Disc }
    }

    /// The same star field with another rasterization shape.
    pub fn with_shape(self, shape: StarShape) -> (s: Stars)
        ensures
            s == (Stars { shape, ..self }),
    {
        Stars { shape, ..self }
    }

    /// Begin generating: seed the stream and fill the sky buffer with the
    /// fixed background color. The caller then alternates `next_noise_seed`
    /// and `run_pass` for the five passes and takes the buffer with `finish`.
    pub fn generate(self) -> (g: StarGen)
        requires
            1 <= self.size,
            self.size * self.size <= usize::MAX,
        ensures
            g.wf(),
            g.rng == seed_spec(self.seed),
            g.size == self.size,
            g.shape == self.shape,
            g.passes_done == 0,
            g.sky@.len() == self.size * self.size,
            forall|i: int| 0 <= i < g.sky@.len() ==> g.sky@[i] == background_spec(),
    {
        proof {
            assert(self.size * self.size >= self.size) by (nonlinear_arith)
                requires
                    self.size >= 1,
            ;
        }
        let n: usize = self.size * self.size;
        let mut sky: Vec<Color> = Vec::new();
        let bg = Color::new(20_000, 20_000, 95_000, 1_000_000);
        let mut i: usize = 0;
        while i < n
            invariant
                0 <= i <= n,
                sky@.len() == i,
                bg == background_spec(),
                forall|j: int| 0 <= j < i ==> sky@[j] == background_spec(),
            decreases n - i,
        {
            sky.push(bg);
            i = i + 1;
        }
        StarGen {
            rng: Rng64::seed_from_u64(self.seed),
            size: self.size,
            shape: self.shape,
            passes_done: 0,
            dist: SpectralType::get_distribution(),
            sky,
        }
    }
}

impl StarGen {
    /// The buffer has one opaque unit-interval color per canvas pixel and the
    /// distribution table is intact.
    pub open spec fn wf(self) -> bool {
        &&& 1 <= self.size
        &&& self.sky@.len() == self.size * self.size
        &&& sky_wf_spec(self.sky@)
        &&& self.dist.wf()
        &&& self.passes_done <= STAR_PASSES
    }

    /// Draw the seed for the next pass's density noise field.
    pub fn next_noise_seed(&mut self) -> (seed: u64)
        requires
            old(self).wf(),
            old(self).passes_done < STAR_PASSES,
        ensures
            final(self).wf(),
            seed == next_out_spec(old(self).rng),
            final(self).rng == next_state_spec(old(self).rng),
            final(self).passes_done == old(self).passes_done + 1,
            final(self).sky == old(self).sky,
            final(self).size == old(self).size,
            final(self).shape == old(self).shape,
            final(self).dist == old(self).dist,
    {
        self.passes_done = self.passes_done + 1;
        self.rng.next_u64()
    }

    /// Take the finished sky buffer.
    pub fn finish(self) -> (sky: Vec<Color>)
        ensures
            sky == self.sky,
    {
        self.sky
    }

    /// Run one star pass over the given density raster: draw
    /// `CANDIDATES_PER_PASS` candidate positions and composite the visible
    /// ones onto the sky, exactly as `pass_spec` describes.
    pub fn run_pass(&mut self, raster: &Vec<i64>)
        requires
            old(self).wf(),
            raster_wf_spec(raster@, old(self).size as int),
        ensures
            final(self).wf(),
            final(self).size == old(self).size,
            final(self).shape == old(self).shape,
            final(self).passes_done == old(self).passes_done,
            final(self).dist == old(self).dist,
            ({
                let end = pass_spec(
                    old(self).sky@,
                    old(self).rng,
                    raster@,
                    old(self).size as int,
                    old(self).shape,
                    CANDIDATES_PER_PASS as nat,
                );
                final(self).sky@ == end.0 && final(self).rng == end.1
            }),
    {
        let ghost sky0 = self.sky@;
        let ghost rng0 = self.rng;
        let mut c: usize = 0;
        while c < CANDIDATES_PER_PASS
            invariant
                self.wf(),
                self.size == old(self).size,
                self.shape == old(self).shape,
                self.passes_done == old(self).passes_done,
                self.dist == old(self).dist,
                raster_wf_spec(raster@, self.size as int),
                0 <= c <= CANDIDATES_PER_PASS,
                ({
                    let mid = pass_spec(
                        sky0,
                        rng0,
                        raster@,
                        self.size as int,
                        self.shape,
                        c as nat,
                    );
                    self.sky@ == mid.0 && self.rng == mid.1
                }),
            decreases CANDIDATES_PER_PASS - c,
        {
            self.place_candidate(raster);
            c = c + 1;
        }
    }

    /// Place one candidate star: draw its position, test its density alpha,
    /// and — when visible — draw its spectral class and radius and rasterize
    /// it onto the sky.
    fn place_candidate(&mut self, raster: &Vec<i64>)
        requires
            old(self).wf(),
            raster_wf_spec(raster@, old(self).size as int),
        ensures
            final(self).wf(),
            final(self).size == old(self).size,
            final(self).shape == old(self).shape,
            final(self).passes_done == old(self).passes_done,
            final(self).dist == old(self).dist,
            ({
                let step = candidate_spec(
                    old(self).sky@,
                    old(self).rng,
                    raster@,
                    old(self).size as int,
                    old(self).shape,
                );
                final(self).sky@ == step.0 && final(self).rng == step.1
            }),
    {
        let size = self.size;
        let x64 = self.rng.below(size as u64);
        let x = x64 as usize;
        let y64 = self.rng.below(size as u64);
        let y = y64 as usize;
        proof {
            lemma_coord_to_index(x as int, y as int, size as int);
        }
        // the raster length is a usize, so the index arithmetic below cannot
        // overflow the address space
        let _len: usize = raster.len();
        let v: i64 = raster[y * size + x];
        let alpha: i64 = fp_mul(v, DENSITY_GAIN);
        proof {
            crate::fixed::lemma_fp_mul_bound(
                v as int,
                DENSITY_GAIN as int,
                2_000_000,
                DENSITY_GAIN as int,
            );
        }
        if alpha < ALPHA_VISIBLE_MIN {
            return ;
        }
        let s_i: usize = self.dist.sample(&mut self.rng);
        proof {
            let u = scale_below_spec(
                next_out_spec(next_state_spec(next_state_spec(old(self).rng))),
                self.dist.total,
            );
            lemma_sample_picks(s_i as int, u);
        }
        let stype = SpectralType::from_dist(s_i);
        let scolor = stype.color();
        let range = stype.radius();
        let rdraw = self.rng.below(range.1 - range.0);
        let radius: u64 = range.0 + rdraw;
        proof {
            assert(scolor.a == FP_ONE) by {
                assert((2 * 255 * 1_000_000int + 255) / 510 == 1_000_000);
            }
            assert(1 <= radius <= 7_500_000) by {
                lemma_radius_range_bounds(stype);
            }
        }
        rasterize_star(&mut self.sky, size, self.shape, x, y, radius, alpha, scolor);
    }
}

/// Every radius range lies within the fixed-point bounds the rasterizer
/// expects.
proof fn lemma_radius_range_bounds(s: SpectralType)
    ensures
        1 <= radius_spec(s).0,
        radius_spec(s).1 <= 7_500_000,
        radius_spec(s).0 < radius_spec(s).1,
{
    match s {
        SpectralType::O => {},
        SpectralType::B => {},
        SpectralType::A => {},
        SpectralType::F => {},
        SpectralType::G => {},
        SpectralType::K => {},
        SpectralType::M => {},
    }
}

/// A sampled index whose cumulative weight window contains the scaled draw is
/// the index the fixed weight table picks.
proof fn lemma_sample_picks(s: int, u: int)
    requires
        0 <= s < 7,
        cum_weight_spec(s) > u,
        forall|j: int| 0 <= j < s ==> cum_weight_spec(j) <= u,
    ensures
        s == pick_spec(u),
{
    assert(cum_weight_spec(0) == 3);
    assert(cum_weight_spec(1) == 13_003);
    assert(cum_weight_spec(2) == 73_003);
    assert(cum_weight_spec(3) == 373_003);
    assert(cum_weight_spec(4) == 1_133_003);
    assert(cum_weight_spec(5) == 2_343_003);
    assert(cum_weight_spec(6) == 9_993_003);
    if s > 0 {
        assert(cum_weight_spec(s - 1) <= u);
    }
}

} // verus!
