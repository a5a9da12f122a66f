//! A simple RGBA color with source-over alpha compositing.
//!
//! Channels are linear-space fixed-point scalars counting millionths (see
//! `fixed`): conceptually unbounded, but meaningful only in `[0, FP_ONE]`.
//! Out-of-range values are sanitized only at quantization (`to_array`).

use vstd::prelude::*;

use crate::fixed::{
    clamp_fp, clamp_spec, fp_div, fp_div_spec, fp_mul, fp_mul_spec, fp_safe,
    lemma_div_ordered, lemma_div_shrinks_nonneg, lemma_fp_div_one, lemma_fp_mul_bound,
    lemma_fp_mul_le_second, lemma_fp_mul_one, lemma_fp_mul_one_left, FP_ONE,
};

verus! {

/// Magnitude bound on channels under which `blend` is free of overflow: one
/// hundred in real terms, far beyond any value the pipeline produces.
pub const CHAN_LIMIT: i64 = 100_000_000;

/// A simple RGBA color; fields count millionths.
#[derive(Debug, Clone, Copy, PartialEq, Eq, Structural)]
pub struct Color {
    pub r: i64,
    pub g: i64,
    pub b: i64,
    pub a: i64,
}

/// An eight-bit channel scaled into fixed point: `x / 255`, rounded to
/// nearest.
pub open spec fn u8_to_fp_spec(x: int) -> int {
    (2 * x * (FP_ONE as int) + 255) / 510
}

/// One channel quantized to 16 bits: clamp into `[0, FP_ONE]`, scale by
/// `u16::MAX`, round to nearest.
pub open spec fn scale_u16_spec(c: int) -> int {
    (clamp_spec(c, 0, FP_ONE as int) * 65535 + 500_000) / (FP_ONE as int)
}

/// The source-over composite alpha.
pub open spec fn over_alpha_spec(ba: int, fa: int) -> int {
    ba + fa - fp_mul_spec(ba, fa)
}

/// One channel of the source-over composite: premultiply both inputs by their
/// own alpha, combine, then un-premultiply by the composite alpha.
pub open spec fn over_chan_spec(bc: int, ba: int, fc: int, fa: int) -> int {
    fp_div_spec(
        fp_mul_spec(fc, fa) + fp_mul_spec(fp_mul_spec(bc, ba), FP_ONE as int - fa),
        over_alpha_spec(ba, fa),
    )
}

/// Source-over alpha compositing of `fg` over `bg`. A nonpositive alpha on
/// either side short-circuits to the other color, which keeps the composite
/// alpha positive and the un-premultiplying division well defined.
pub open spec fn blend_spec(bg: Color, fg: Color) -> Color {
    if bg.a <= 0 {
        fg
    } else if fg.a <= 0 {
        bg
    } else {
        Color {
            r: over_chan_spec(bg.r as int, bg.a as int, fg.r as int, fg.a as int) as i64,
            g: over_chan_spec(bg.g as int, bg.a as int, fg.g as int, fg.a as int) as i64,
            b: over_chan_spec(bg.b as int, bg.a as int, fg.b as int, fg.a as int) as i64,
            a: over_alpha_spec(bg.a as int, fg.a as int) as i64,
        }
    }
}

impl Color {
    /// All four channels within `CHAN_LIMIT` in magnitude.
    pub open spec fn wf(self) -> bool {
        &&& -CHAN_LIMIT <= self.r <= CHAN_LIMIT
        &&& -CHAN_LIMIT <= self.g <= CHAN_LIMIT
        &&& -CHAN_LIMIT <= self.b <= CHAN_LIMIT
        &&& -CHAN_LIMIT <= self.a <= CHAN_LIMIT
    }

    /// All four channels in the unit interval `[0, FP_ONE]`.
    pub open spec fn unit(self) -> bool {
        &&& 0 <= self.r <= FP_ONE
        &&& 0 <= self.g <= FP_ONE
        &&& 0 <= self.b <= FP_ONE
        &&& 0 <= self.a <= FP_ONE
    }

    /// Create a new `Color` from four fixed-point channels.
    pub fn new(r: i64, g: i64, b: i64, a: i64) -> (c: Color)
        ensures
            c == (Color { r, g, b, a }),
    {
        Color { r, g, b, a }
    }

    /// Create a `Color` from 8-bit channel values, each scaled by `1/255`.
    pub fn new_from_u8(r: u8, g: u8, b: u8, a: u8) -> (c: Color)
        ensures
            c.r == u8_to_fp_spec(r as int),
            c.g == u8_to_fp_spec(g as int),
            c.b == u8_to_fp_spec(b as int),
            c.a == u8_to_fp_spec(a as int),
            c.unit(),
    {
        Color {
            r: scale_u8(r),
            g: scale_u8(g),
            b: scale_u8(b),
            a: scale_u8(a),
        }
    }

    /// Create a `Color` where all four channels are set to the same value.
    pub fn splat(value: i64) -> (c: Color)
        ensures
            c == (Color { r: value, g: value, b: value, a: value }),
    {
        Color { r: value, g: value, b: value, a: value }
    }

    /// Multiply the color's alpha channel by a fixed-point factor.
    pub fn mul_alpha(self, a: i64) -> (c: Color)
        requires
            fp_safe(self.a as int),
            fp_safe(a as int),
        ensures
            c.r == self.r,
            c.g == self.g,
            c.b == self.b,
            c.a == fp_mul_spec(self.a as int, a as int),
    {
        Color { a: fp_mul(self.a, a), ..self }
    }

    /// Multiply the R, G and B channels by a fixed-point factor, leaving the
    /// alpha channel alone.
    pub fn scale_rgb(self, rhs: i64) -> (c: Color)
        requires
            fp_safe(self.r as int),
            fp_safe(self.g as int),
            fp_safe(self.b as int),
            fp_safe(rhs as int),
        ensures
            c.r == fp_mul_spec(self.r as int, rhs as int),
            c.g == fp_mul_spec(self.g as int, rhs as int),
            c.b == fp_mul_spec(self.b as int, rhs as int),
            c.a == self.a,
    {
        Color {
            r: fp_mul(self.r, rhs),
            g: fp_mul(self.g, rhs),
            b: fp_mul(self.b, rhs),
            a: self.a,
        }
    }

    /// Convert this `Color` into an array of `u16` values: each channel is
    /// clamped to the unit interval, scaled by `u16::MAX`, and rounded to
    /// nearest.
    pub fn to_array(self) -> (out: [u16; 4])
        ensures
            out[0] == scale_u16_spec(self.r as int),
            out[1] == scale_u16_spec(self.g as int),
            out[2] == scale_u16_spec(self.b as int),
            out[3] == scale_u16_spec(self.a as int),
    {
        [scale_u16(self.r), scale_u16(self.g), scale_u16(self.b), scale_u16(self.a)]
    }

    /// Blend this `Color` (the background) with a foreground, using
    /// source-over alpha compositing on premultiplied intermediates.
    pub fn blend(self, fg: Color) -> (out: Color)
        requires
            self.wf(),
            fg.wf(),
            self.a <= FP_ONE,
        ensures
            out == blend_spec(self, fg),
    {
        if self.a <= 0 {
            return fg;
        } else if fg.a <= 0 {
            return self;
        }
        proof {
            lemma_fp_mul_le_second(self.a as int, fg.a as int);
        }
        let alpha: i64 = self.a + fg.a - fp_mul(self.a, fg.a);

        let bg_r = fp_mul(self.r, self.a);
        let bg_g = fp_mul(self.g, self.a);
        let bg_b = fp_mul(self.b, self.a);
        let fg_r = fp_mul(fg.r, fg.a);
        let fg_g = fp_mul(fg.g, fg.a);
        let fg_b = fp_mul(fg.b, fg.a);
        proof {
            lemma_fp_mul_bound(self.r as int, self.a as int, CHAN_LIMIT as int, FP_ONE as int);
            lemma_fp_mul_bound(self.g as int, self.a as int, CHAN_LIMIT as int, FP_ONE as int);
            lemma_fp_mul_bound(self.b as int, self.a as int, CHAN_LIMIT as int, FP_ONE as int);
            lemma_fp_mul_bound(fg.r as int, fg.a as int, CHAN_LIMIT as int, CHAN_LIMIT as int);
            lemma_fp_mul_bound(fg.g as int, fg.a as int, CHAN_LIMIT as int, CHAN_LIMIT as int);
            lemma_fp_mul_bound(fg.b as int, fg.a as int, CHAN_LIMIT as int, CHAN_LIMIT as int);
            lemma_fp_mul_bound(bg_r as int, FP_ONE - fg.a, CHAN_LIMIT as int, CHAN_LIMIT as int);
            lemma_fp_mul_bound(bg_g as int, FP_ONE - fg.a, CHAN_LIMIT as int, CHAN_LIMIT as int);
            lemma_fp_mul_bound(bg_b as int, FP_ONE - fg.a, CHAN_LIMIT as int, CHAN_LIMIT as int);
        }
        let inv = FP_ONE - fg.a;
        let fin_r = fg_r + fp_mul(bg_r, inv);
        let fin_g = fg_g + fp_mul(bg_g, inv);
        let fin_b = fg_b + fp_mul(bg_b, inv);

        Color {
            r: fp_div(fin_r, alpha),
            g: fp_div(fin_g, alpha),
            b: fp_div(fin_b, alpha),
            a: alpha,
        }
    }
}

impl Default for Color {
    /// The fully transparent black color.
    fn default() -> (c: Color)
        ensures
            c == (Color { r: 0, g: 0, b: 0, a: 0 }),
    {
        Color { r: 0, g: 0, b: 0, a: 0 }
    }
}

/// One 8-bit channel scaled into fixed point, rounded to nearest.
fn scale_u8(x: u8) -> (v: i64)
    ensures
        v == u8_to_fp_spec(x as int),
        0 <= v <= FP_ONE,
{
    let v: i64 = (2 * (x as i64) * 1_000_000 + 255) / 510;
    proof {
        lemma_div_ordered(2 * (x as int) * 1_000_000 + 255, 2 * 255 * 1_000_000int + 255, 510);
        lemma_div_shrinks_nonneg(2 * (x as int) * 1_000_000 + 255, 510);
    }
    v
}

/// One fixed-point channel quantized to a `u16` sample.
fn scale_u16(c: i64) -> (v: u16)
    ensures
        v == scale_u16_spec(c as int),
{
    let cl = clamp_fp(c, 0, FP_ONE);
    let wide: i64 = (cl * 65535 + 500_000) / 1_000_000;
    proof {
        lemma_div_shrinks_nonneg(cl as int * 65535 + 500_000, 1_000_000);
        lemma_div_ordered(cl as int * 65535 + 500_000, 1_000_000int * 65535 + 500_000, 1_000_000);
    }
    wide as u16
}

/// Quantization never leaves the `u16` range.
pub proof fn lemma_scale_u16_range(c: int)
    ensures
        0 <= scale_u16_spec(c) <= 65535,
{
    let cl = clamp_spec(c, 0, FP_ONE as int);
    lemma_div_shrinks_nonneg(cl * 65535 + 500_000, FP_ONE as int);
    lemma_div_ordered(cl * 65535 + 500_000, 1_000_000int * 65535 + 500_000, FP_ONE as int);
}

/// Quantization is monotonic: a channel that does not decrease never yields a
/// smaller 16-bit sample.
pub proof fn lemma_scale_u16_monotonic(c1: int, c2: int)
    requires
        c1 <= c2,
    ensures
        scale_u16_spec(c1) <= scale_u16_spec(c2),
{
    let l1 = clamp_spec(c1, 0, FP_ONE as int);
    let l2 = clamp_spec(c2, 0, FP_ONE as int);
    assert(l1 <= l2);
    lemma_div_ordered(l1 * 65535 + 500_000, l2 * 65535 + 500_000, FP_ONE as int);
}

/// Compositing with a fully transparent foreground leaves the background
/// unchanged, and compositing anything over a fully transparent background
/// yields the foreground unchanged.
pub proof fn lemma_blend_identity(bg: Color, fg: Color)
    ensures
        bg.a > 0 && fg.a <= 0 ==> blend_spec(bg, fg) == bg,
        bg.a <= 0 ==> blend_spec(bg, fg) == fg,
{
}

/// For colors with all channels and alphas in the unit interval, the composite
/// alpha lies in `[max(bg.a, fg.a), FP_ONE]` and every composite channel stays
/// in the unit interval.
pub proof fn lemma_blend_bounds(bg: Color, fg: Color)
    requires
        bg.unit(),
        fg.unit(),
    ensures
        blend_spec(bg, fg).a >= bg.a,
        blend_spec(bg, fg).a >= fg.a,
        blend_spec(bg, fg).unit(),
{
    if bg.a <= 0 || fg.a <= 0 {
    } else {
        let ba = bg.a as int;
        let fa = fg.a as int;
        let one = FP_ONE as int;
        let m = fp_mul_spec(ba, fa);
        lemma_fp_mul_le_second(ba, fa);
        assert(ba * fa == fa * ba) by (nonlinear_arith);
        lemma_fp_mul_le_second(fa, ba);
        assert(m <= ba && m <= fa);
        let oa = over_alpha_spec(ba, fa);
        assert(oa >= ba && oa >= fa);
        // upper bound on the composite alpha
        assert(ba * fa >= one * (ba + fa - one)) by (nonlinear_arith)
            requires
                0 <= ba <= one,
                0 <= fa <= one,
                one == FP_ONE as int,
        ;
        if ba + fa - one > 0 {
            lemma_div_ordered(one * (ba + fa - one), ba * fa, one);
            assert((one * (ba + fa - one)) / one == ba + fa - one) by (nonlinear_arith)
                requires
                    one >= 1,
            ;
        }
        assert(oa <= one);
        lemma_blend_chan_bound(bg.r as int, ba, fg.r as int, fa);
        lemma_blend_chan_bound(bg.g as int, ba, fg.g as int, fa);
        lemma_blend_chan_bound(bg.b as int, ba, fg.b as int, fa);
    }
}

/// One channel of a unit-interval composite stays in the unit interval.
proof fn lemma_blend_chan_bound(bc: int, ba: int, fc: int, fa: int)
    requires
        0 <= bc <= FP_ONE as int,
        0 <= fc <= FP_ONE as int,
        1 <= ba <= FP_ONE as int,
        1 <= fa <= FP_ONE as int,
    ensures
        0 <= over_chan_spec(bc, ba, fc, fa) <= FP_ONE as int,
{
    let one = FP_ONE as int;
    let m = fp_mul_spec(ba, fa);
    let oa = over_alpha_spec(ba, fa);
    lemma_fp_mul_le_second(ba, fa);
    assert(m <= fa && m >= 0);
    assert(oa >= ba >= 1);

    let fgp = fp_mul_spec(fc, fa);
    lemma_fp_mul_le_second(fc, fa);
    assert(0 <= fgp <= fa);
    let bgp = fp_mul_spec(bc, ba);
    lemma_fp_mul_le_second(bc, ba);
    assert(0 <= bgp <= ba);
    let t = fp_mul_spec(bgp, one - fa);
    assert(0 <= bgp * (one - fa) <= ba * (one - fa)) by (nonlinear_arith)
        requires
            0 <= bgp <= ba,
            0 <= one - fa,
    ;
    lemma_div_shrinks_nonneg(bgp * (one - fa), one);
    lemma_div_ordered(bgp * (one - fa), ba * (one - fa), one);
    assert(t == (bgp * (one - fa)) / one);
    assert(t <= (ba * (one - fa)) / one);
    // (ba * (one - fa)) == ba * one - ba * fa, and dividing a multiple of one
    // less a nonnegative amount loses at least the divided amount
    assert(ba * (one - fa) == ba * one - ba * fa) by (nonlinear_arith);
    crate::fixed::lemma_sub_div(ba, ba * fa, one);
    assert(0 <= ba * fa) by (nonlinear_arith)
        requires
            0 <= ba,
            0 <= fa,
    ;
    assert((ba * (one - fa)) / one <= ba - m);
    assert(t <= ba - m);
    let fin = fgp + t;
    assert(0 <= fin <= fa + ba - m);
    assert(fin <= oa);
    // un-premultiplying by the composite alpha keeps the unit interval
    assert(over_chan_spec(bc, ba, fc, fa) == (fin * one) / oa);
    lemma_div_shrinks_nonneg(fin * one, oa);
    assert(0 <= fin * one) by (nonlinear_arith)
        requires
            0 <= fin,
            one >= 1,
    ;
    assert(fin * one <= oa * one) by (nonlinear_arith)
        requires
            fin <= oa,
            one >= 1,
    ;
    lemma_div_ordered(fin * one, oa * one, oa);
    assert((oa * one) / oa == one) by (nonlinear_arith)
        requires
            oa >= 1,
    ;
}

/// Compositing over an opaque background keeps the background opaque, and each
/// composite channel is the convex-style mix of the two layers' channels
/// weighted by the foreground alpha.
pub proof fn lemma_blend_opaque(bg: Color, fg: Color)
    requires
        bg.wf(),
        fg.wf(),
        bg.a == FP_ONE,
    ensures
        fg.a <= 0 ==> blend_spec(bg, fg) == bg,
        fg.a > 0 ==> blend_spec(bg, fg) == (Color {
            r: (fp_mul_spec(fg.r as int, fg.a as int) + fp_mul_spec(
                bg.r as int,
                FP_ONE as int - fg.a as int,
            )) as i64,
            g: (fp_mul_spec(fg.g as int, fg.a as int) + fp_mul_spec(
                bg.g as int,
                FP_ONE as int - fg.a as int,
            )) as i64,
            b: (fp_mul_spec(fg.b as int, fg.a as int) + fp_mul_spec(
                bg.b as int,
                FP_ONE as int - fg.a as int,
            )) as i64,
            a: FP_ONE,
        }),
{
    if fg.a > 0 {
        let one = FP_ONE as int;
        let fa = fg.a as int;
        lemma_fp_mul_one_left(fa);
        assert(over_alpha_spec(one, fa) == one);
        lemma_blend_opaque_chan(bg.r as int, fg.r as int, fa);
        lemma_blend_opaque_chan(bg.g as int, fg.g as int, fa);
        lemma_blend_opaque_chan(bg.b as int, fg.b as int, fa);
    }
}

/// One channel of a composite over an opaque background.
proof fn lemma_blend_opaque_chan(bc: int, fc: int, fa: int)
    requires
        1 <= fa,
    ensures
        over_chan_spec(bc, FP_ONE as int, fc, fa) == fp_mul_spec(fc, fa) + fp_mul_spec(
            bc,
            FP_ONE as int - fa,
        ),
{
    let one = FP_ONE as int;
    lemma_fp_mul_one(bc);
    assert(fp_mul_spec(bc, one) == bc);
    lemma_fp_mul_one_left(fa);
    assert(over_alpha_spec(one, fa) == one);
    lemma_fp_div_one(fp_mul_spec(fc, fa) + fp_mul_spec(bc, one - fa));
}

/// Compositing unit-interval colors over an opaque unit-interval background
/// yields an opaque unit-interval color.
pub proof fn lemma_blend_opaque_unit(bg: Color, fg: Color)
    requires
        bg.unit(),
        bg.a == FP_ONE,
        fg.unit(),
    ensures
        blend_spec(bg, fg).unit(),
        blend_spec(bg, fg).a == FP_ONE,
{
    lemma_blend_bounds(bg, fg);
}

} // verus!
