//! The basic spectral classifications of stars, with their fixed attribute
//! tables: a relative occurrence weight, a blackbody color, and a radius
//! sampling range. Sub-types and "extended" spectral types are out of scope,
//! as true-to-life realism is not the goal.

use vstd::prelude::*;

use crate::color::{u8_to_fp_spec, Color};
use crate::rng::{next_out_spec, next_state_spec, scale_below_spec, Rng64};

verus! {

/// The basic spectral classifications of stars.
#[derive(Debug, Clone, Copy, PartialEq, Eq, Structural)]
pub enum SpectralType {
    O,
    B,
    A,
    F,
    G,
    K,
    M,
}

/// The relative occurrence weight of a spectral type, counting ten-millionths,
/// following the usual stellar classification tables.
pub open spec fn weight_spec(s: SpectralType) -> u64 {
    match s {
        SpectralType::O => 3,
        SpectralType::B => 13_000,
        SpectralType::A => 60_000,
        SpectralType::F => 300_000,
        SpectralType::G => 760_000,
        SpectralType::K => 1_210_000,
        SpectralType::M => 7_650_000,
    }
}

/// The blackbody color of a spectral type (alpha fully opaque), from the
/// customary star-color tables, stated in 8-bit channels scaled to fixed
/// point.
pub open spec fn color_spec(s: SpectralType) -> Color {
    match s {
        SpectralType::O => rgb8_spec(155, 176, 255),
        SpectralType::B => rgb8_spec(170, 191, 255),
        SpectralType::A => rgb8_spec(202, 215, 255),
        SpectralType::F => rgb8_spec(248, 247, 255),
        SpectralType::G => rgb8_spec(255, 244, 234),
        SpectralType::K => rgb8_spec(255, 210, 161),
        SpectralType::M => rgb8_spec(255, 204, 111),
    }
}

/// A fully opaque color from three 8-bit channels.
pub open spec fn rgb8_spec(r: int, g: int, b: int) -> Color {
    Color {
        r: u8_to_fp_spec(r) as i64,
        g: u8_to_fp_spec(g) as i64,
        b: u8_to_fp_spec(b) as i64,
        a: u8_to_fp_spec(255) as i64,
    }
}

/// The radius sampling range of a spectral type, inclusive-exclusive, in
/// fixed-point pixel units.
pub open spec fn radius_spec(s: SpectralType) -> (u64, u64) {
    match s {
        SpectralType::O => (6_600_000, 7_500_000),
        SpectralType::B => (1_800_000, 6_600_000),
        SpectralType::A => (1_400_000, 1_800_000),
        SpectralType::F => (1_100_000, 1_400_000),
        SpectralType::G => (900_000, 1_100_000),
        SpectralType::K => (700_000, 900_000),
        SpectralType::M => (600_000, 700_000),
    }
}

/// The spectral type at a given index of the fixed distribution order.
pub open spec fn from_dist_spec(dist: int) -> SpectralType {
    if dist == 0 {
        SpectralType::O
    } else if dist == 1 {
        SpectralType::B
    } else if dist == 2 {
        SpectralType::A
    } else if dist == 3 {
        SpectralType::F
    } else if dist == 4 {
        SpectralType::G
    } else if dist == 5 {
        SpectralType::K
    } else {
        SpectralType::M
    }
}

/// The cumulative weight of the distribution order up to and including index
/// `i`.
pub open spec fn cum_weight_spec(i: int) -> int
    decreases i,
{
    if i <= 0 {
        weight_spec(from_dist_spec(0)) as int
    } else {
        cum_weight_spec(i - 1) + weight_spec(from_dist_spec(i)) as int
    }
}

/// The weighted spectral-class distribution: cumulative weights, ready for
/// sampling by a scaled uniform draw.
pub struct SpectralDist {
    pub cum: Vec<u64>,
    pub total: u64,
}

impl SpectralDist {
    /// The cumulative table matches the fixed weights, ends at the total, and
    /// the total is positive.
    pub open spec fn wf(self) -> bool {
        &&& self.cum@.len() == 7
        &&& forall|i: int| 0 <= i < 7 ==> self.cum@[i] == cum_weight_spec(i)
        &&& self.total == cum_weight_spec(6)
        &&& self.total >= 1
    }

    /// Sample an index of the distribution: scale one draw into the total
    /// weight and pick the first class whose cumulative weight exceeds it.
    pub fn sample(&self, rng: &mut Rng64) -> (idx: usize)
        requires
            self.wf(),
        ensures
            *final(rng) == next_state_spec(*old(rng)),
            idx < 7,
            ({
                let u = scale_below_spec(next_out_spec(*old(rng)), self.total);
                &&& self.cum@[idx as int] > u
                &&& forall|j: int| 0 <= j < idx ==> self.cum@[j] <= u
            }),
    {
        let u = rng.below(self.total);
        let mut i: usize = 0;
        while i < 6 && self.cum[i] <= u
            invariant
                self.wf(),
                0 <= i <= 6,
                u < self.total,
                forall|j: int| 0 <= j < i ==> self.cum@[j] <= u,
            decreases 6 - i,
        {
            i = i + 1;
        }
        i
    }
}

impl SpectralType {
    /// The relative weight of this type of star among a stellar population.
    pub fn weight(&self) -> (w: u64)
        ensures
            w == weight_spec(*self),
    {
        match *self {
            SpectralType::O => 3,
            SpectralType::B => 13_000,
            SpectralType::A => 60_000,
            SpectralType::F => 300_000,
            SpectralType::G => 760_000,
            SpectralType::K => 1_210_000,
            SpectralType::M => 7_650_000,
        }
    }

    /// The blackbody color for this type of star.
    pub fn color(&self) -> (c: Color)
        ensures
            c == color_spec(*self),
            c.unit(),
    {
        match *self {
            SpectralType::O => Color::new_from_u8(155, 176, 255, 255),
            SpectralType::B => Color::new_from_u8(170, 191, 255, 255),
            SpectralType::A => Color::new_from_u8(202, 215, 255, 255),
            SpectralType::F => Color::new_from_u8(248, 247, 255, 255),
            SpectralType::G => Color::new_from_u8(255, 244, 234, 255),
            SpectralType::K => Color::new_from_u8(255, 210, 161, 255),
            SpectralType::M => Color::new_from_u8(255, 204, 111, 255),
        }
    }

    /// The radius sampling range of this type of star, inclusive-exclusive, in
    /// fixed-point pixel units.
    pub fn radius(&self) -> (range: (u64, u64))
        ensures
            range == radius_spec(*self),
            range.0 < range.1,
    {
        match *self {
            SpectralType::O => (6_600_000, 7_500_000),
            SpectralType::B => (1_800_000, 6_600_000),
            SpectralType::A => (1_400_000, 1_800_000),
            SpectralType::F => (1_100_000, 1_400_000),
            SpectralType::G => (900_000, 1_100_000),
            SpectralType::K => (700_000, 900_000),
            SpectralType::M => (600_000, 700_000),
        }
    }

    /// Build the weighted distribution for choosing a random star type. The
    /// fixed weights are all positive, so the distribution is valid by
    /// construction.
    pub fn get_distribution() -> (d: SpectralDist)
        ensures
            d.wf(),
    {
        let mut cum: Vec<u64> = Vec::new();
        cum.push(3);
        cum.push(13_003);
        cum.push(73_003);
        cum.push(373_003);
        cum.push(1_133_003);
        cum.push(2_343_003);
        cum.push(9_993_003);
        proof {
            assert forall|i: int| 0 <= i < 7 implies cum@[i] == cum_weight_spec(i) by {
                assert(cum_weight_spec(0) == 3);
                assert(cum_weight_spec(1) == 13_003);
                assert(cum_weight_spec(2) == 73_003);
                assert(cum_weight_spec(3) == 373_003);
                assert(cum_weight_spec(4) == 1_133_003);
                assert(cum_weight_spec(5) == 2_343_003);
                assert(cum_weight_spec(6) == 9_993_003);
            }
        }
        SpectralDist { cum, total: 9_993_003 }
    }

    /// Choose a star type given an index of the distribution order.
    pub fn from_dist(dist: usize) -> (s: SpectralType)
        requires
            dist < 7,
        ensures
            s == from_dist_spec(dist as int),
    {
        if dist == 0 {
            SpectralType::O
        } else if dist == 1 {
            SpectralType::B
        } else if dist == 2 {
            SpectralType::A
        } else if dist == 3 {
            SpectralType::F
        } else if dist == 4 {
            SpectralType::G
        } else if dist == 5 {
            SpectralType::K
        } else {
            SpectralType::M
        }
    }
}

/// Every spectral type has a positive occurrence weight.
pub proof fn lemma_weights_positive()
    ensures
        forall|s: SpectralType| weight_spec(s) >= 1,
{
    assert forall|s: SpectralType| weight_spec(s) >= 1 by {
        match s {
            SpectralType::O => {},
            SpectralType::B => {},
            SpectralType::A => {},
            SpectralType::F => {},
            SpectralType::G => {},
            SpectralType::K => {},
            SpectralType::M => {},
        }
    }
}

/// Every spectral type has a non-empty radius sampling range.
pub proof fn lemma_radius_ranges_nonempty()
    ensures
        forall|s: SpectralType| radius_spec(s).0 < radius_spec(s).1,
{
    assert forall|s: SpectralType| radius_spec(s).0 < radius_spec(s).1 by {
        match s {
            SpectralType::O => {},
            SpectralType::B => {},
            SpectralType::A => {},
            SpectralType::F => {},
            SpectralType::G => {},
            SpectralType::K => {},
            SpectralType::M => {},
        }
    }
}

} // verus!
