//! A cloud of gas in a nebula.
//!
//! A cloud owes its shape to two continuous noise fields derived from one
//! seed: a smooth fractal field and a "billow"-shaped one. The fields are a
//! floating-point capability outside this library: the caller samples them at
//! the probe points this module names and hands the raw values in as a
//! `CloudSample`, and the cloud turns them into a colored, variable-alpha
//! pixel with exact fixed-point arithmetic.

use vstd::prelude::*;

use crate::color::Color;
use crate::fixed::{
    clamp_fp, clamp_spec, fp_mul, fp_mul_spec, lemma_fp_mul_bound, FP_ONE,
};

verus! {

/// The envelope value below which a pixel is outside the cloud. The envelope
/// is a fixed-point value, so anything below one millionth — in particular
/// anything nonpositive — cuts the cloud off.
pub const ENVELOPE_MIN: i64 = 1;

/// The strength of the domain distortion applied to the sampling coordinates.
pub const DISTORT_STRENGTH: i64 = 200_000;

/// The coordinate offset at which the distortion field is probed along x.
pub const DISTORT_OFFSET_X: i64 = 1_700_000;

/// The coordinate offset at which the distortion field is probed along y.
pub const DISTORT_OFFSET_Y: i64 = 3_200_000;

/// The envelope cap that keeps the smooth noise from saturating the alpha
/// near the canvas center.
pub const ALPHA_ENVELOPE_CAP: i64 = 400_000;

/// The raw noise values a cloud needs to color one pixel: the two distortion
/// probes, the brightness and alpha probes at the distorted coordinates, and
/// the two billow probes.
#[derive(Debug, Clone, Copy, PartialEq, Eq, Structural)]
pub struct CloudSample {
    /// The smooth field at `(x + DISTORT_OFFSET_X, y)`.
    pub n_dx: i64,
    /// The smooth field at `(x, y + DISTORT_OFFSET_Y)`.
    pub n_dy: i64,
    /// The smooth field at the distortion-shifted coordinates.
    pub n_w: i64,
    /// The smooth field at the coordinates shifted the opposite way.
    pub n_a: i64,
    /// The billow field at `(x, y)`.
    pub b1: i64,
    /// The billow field at `(x + DISTORT_OFFSET_X, y)`.
    pub b2: i64,
}

impl CloudSample {
    /// Every raw sample lies in the noise primitive's range.
    pub open spec fn wf(self) -> bool {
        &&& -2_000_000 <= self.n_dx <= 2_000_000
        &&& -2_000_000 <= self.n_dy <= 2_000_000
        &&& -2_000_000 <= self.n_w <= 2_000_000
        &&& -2_000_000 <= self.n_a <= 2_000_000
        &&& -2_000_000 <= self.b1 <= 2_000_000
        &&& -2_000_000 <= self.b2 <= 2_000_000
    }
}

/// A raw noise value shifted by one half and clamped into the unit interval.
pub open spec fn normalized_spec(n: int) -> int {
    clamp_spec(n + 500_000, 0, FP_ONE as int)
}

/// The asymmetric billow shaping: two billow samples at offset coordinates,
/// combined so that positive values make glowing regions and negative values
/// make dark holes.
pub open spec fn billow_shape_spec(b1: int, b2: int) -> int {
    2 * (if b1 > 0 {
        b1
    } else {
        0
    }) - 3 * (if b2 > 0 {
        b2
    } else {
        0
    })
}

/// The cloud's spatial envelope: a downward paraboloid centered on the canvas,
/// positive near the center and negative toward the edges.
pub open spec fn envelope_spec(x: int, y: int) -> int {
    let dx = x - 500_000;
    let dy = y - 500_000;
    500_000 - 2 * (fp_mul_spec(dx, dx) + fp_mul_spec(dy, dy))
}

/// The color a cloud contributes at `(x, y)` given its raw noise samples:
/// fully transparent black outside the envelope; inside it, the base color
/// scaled by the noise-derived brightness and given the envelope-modulated
/// alpha.
pub open spec fn cloud_pixel_spec(color: Color, x: int, y: int, s: CloudSample) -> Color {
    let radius = envelope_spec(x, y);
    if radius < ENVELOPE_MIN as int {
        Color { r: 0, g: 0, b: 0, a: 0 }
    } else {
        let bil = billow_shape_spec(s.b1 as int, s.b2 as int);
        let w = normalized_spec(s.n_w as int) + bil;
        let cap = if radius < ALPHA_ENVELOPE_CAP as int {
            radius
        } else {
            ALPHA_ENVELOPE_CAP as int
        };
        let a = fp_mul_spec(normalized_spec(s.n_a as int), cap) + fp_mul_spec(bil, radius);
        Color {
            r: fp_mul_spec(color.r as int, w) as i64,
            g: fp_mul_spec(color.g as int, w) as i64,
            b: fp_mul_spec(color.b as int, w) as i64,
            a: fp_mul_spec(color.a as int, a) as i64,
        }
    }
}

/// A struct representing a cloud of gas in a nebula: its base color and the
/// seed of its two noise fields.
pub struct GasCloud {
    pub color: Color,
    pub seed: u64,
}

impl GasCloud {
    /// Create a new cloud with the given base color and noise seed.
    pub fn new(color: Color, seed: u64) -> (c: GasCloud)
        ensures
            c == (GasCloud { color, seed }),
    {
        GasCloud { color, seed }
    }

    /// The cloud's spatial envelope at `(x, y)`.
    pub fn envelope(x: i64, y: i64) -> (r: i64)
        requires
            0 <= x <= FP_ONE,
            0 <= y <= FP_ONE,
        ensures
            r == envelope_spec(x as int, y as int),
            -500_000 <= r <= 500_000,
    {
        let dx = x - 500_000;
        let dy = y - 500_000;
        let sx = fp_mul(dx, dx);
        let sy = fp_mul(dy, dy);
        proof {
            lemma_fp_mul_bound(dx as int, dx as int, 500_000, 500_000);
            lemma_fp_mul_bound(dy as int, dy as int, 500_000, 500_000);
            assert((dx as int) * (dx as int) >= 0 && (dy as int) * (dy as int) >= 0)
                by (nonlinear_arith);
        }
        500_000 - 2 * (sx + sy)
    }

    /// The domain-distortion offsets derived from the two distortion probes.
    pub fn distort_offsets(n_dx: i64, n_dy: i64) -> (d: (i64, i64))
        requires
            -2_000_000 <= n_dx <= 2_000_000,
            -2_000_000 <= n_dy <= 2_000_000,
        ensures
            d.0 == fp_mul_spec(normalized_spec(n_dx as int), DISTORT_STRENGTH as int),
            d.1 == fp_mul_spec(normalized_spec(n_dy as int), DISTORT_STRENGTH as int),
            0 <= d.0 <= DISTORT_STRENGTH,
            0 <= d.1 <= DISTORT_STRENGTH,
    {
        let nx = normalized(n_dx);
        let ny = normalized(n_dy);
        proof {
            crate::fixed::lemma_fp_mul_le_second(nx as int, DISTORT_STRENGTH as int);
            crate::fixed::lemma_fp_mul_le_second(ny as int, DISTORT_STRENGTH as int);
        }
        (fp_mul(nx, DISTORT_STRENGTH), fp_mul(ny, DISTORT_STRENGTH))
    }

    /// The cloud's color at `(x, y)`, given the raw noise samples for that
    /// pixel.
    pub fn pixel(&self, x: i64, y: i64, s: &CloudSample) -> (out: Color)
        requires
            0 <= x <= FP_ONE,
            0 <= y <= FP_ONE,
            s.wf(),
            self.color.wf(),
        ensures
            out == cloud_pixel_spec(self.color, x as int, y as int, *s),
    {
        let radius = Self::envelope(x, y);
        if radius < ENVELOPE_MIN {
            return Color::splat(0);
        }
        let bil = billow_shape(s.b1, s.b2);
        let w = normalized(s.n_w) + bil;
        let cap = if radius < ALPHA_ENVELOPE_CAP {
            radius
        } else {
            ALPHA_ENVELOPE_CAP
        };
        let na = normalized(s.n_a);
        let a1 = fp_mul(na, cap);
        let a2 = fp_mul(bil, radius);
        proof {
            lemma_fp_mul_bound(na as int, cap as int, FP_ONE as int, ALPHA_ENVELOPE_CAP as int);
            lemma_fp_mul_bound(bil as int, radius as int, 6_000_000, 500_000);
        }
        let a = a1 + a2;
        self.color.scale_rgb(w).mul_alpha(a)
    }
}

/// A raw noise value shifted by one half and clamped into the unit interval.
pub fn normalized(n: i64) -> (r: i64)
    requires
        -2_000_000 <= n <= 2_000_000,
    ensures
        r == normalized_spec(n as int),
        0 <= r <= FP_ONE,
{
    clamp_fp(n + 500_000, 0, FP_ONE)
}

/// The asymmetric billow shaping of two raw billow samples.
pub fn billow_shape(b1: i64, b2: i64) -> (r: i64)
    requires
        -2_000_000 <= b1 <= 2_000_000,
        -2_000_000 <= b2 <= 2_000_000,
    ensures
        r == billow_shape_spec(b1 as int, b2 as int),
        -6_000_000 <= r <= 4_000_000,
{
    let p1 = if b1 > 0 {
        b1
    } else {
        0
    };
    let p2 = if b2 > 0 {
        b2
    } else {
        0
    };
    2 * p1 - 3 * p2
}

/// The cloud color at any pixel stays within fixed bounds when the base color
/// is in the unit interval and the samples are in the noise range.
pub proof fn lemma_cloud_pixel_bounds(color: Color, x: int, y: int, s: CloudSample)
    requires
        color.unit(),
        s.wf(),
    ensures
        -6_000_000 <= cloud_pixel_spec(color, x, y, s).r <= 6_000_000,
        -6_000_000 <= cloud_pixel_spec(color, x, y, s).g <= 6_000_000,
        -6_000_000 <= cloud_pixel_spec(color, x, y, s).b <= 6_000_000,
        -3_400_000 <= cloud_pixel_spec(color, x, y, s).a <= 3_400_000,
{
    let radius = envelope_spec(x, y);
    if radius < ENVELOPE_MIN as int {
    } else {
        let dx = x - 500_000;
        let dy = y - 500_000;
        assert(fp_mul_spec(dx, dx) >= 0 && fp_mul_spec(dy, dy) >= 0) by {
            assert(dx * dx >= 0 && dy * dy >= 0) by (nonlinear_arith);
        }
        assert(radius <= 500_000);
        let bil = billow_shape_spec(s.b1 as int, s.b2 as int);
        assert(-6_000_000 <= bil <= 4_000_000);
        let w = normalized_spec(s.n_w as int) + bil;
        assert(-6_000_000 <= w <= 5_000_000);
        lemma_fp_mul_bound(color.r as int, w, FP_ONE as int, 6_000_000);
        lemma_fp_mul_bound(color.g as int, w, FP_ONE as int, 6_000_000);
        lemma_fp_mul_bound(color.b as int, w, FP_ONE as int, 6_000_000);
        let cap = if radius < ALPHA_ENVELOPE_CAP as int {
            radius
        } else {
            ALPHA_ENVELOPE_CAP as int
        };
        let a = fp_mul_spec(normalized_spec(s.n_a as int), cap) + fp_mul_spec(bil, radius);
        lemma_fp_mul_bound(
            normalized_spec(s.n_a as int),
            cap,
            FP_ONE as int,
            ALPHA_ENVELOPE_CAP as int,
        );
        lemma_fp_mul_bound(bil, radius, 6_000_000, 500_000);
        assert(-3_400_000 <= a <= 3_400_000);
        lemma_fp_mul_bound(color.a as int, a, FP_ONE as int, 3_400_000);
    }
}

} // verus!
