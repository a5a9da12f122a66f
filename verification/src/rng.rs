//! A deterministic 64-bit pseudo-random stream: the xoshiro256++ generator by
//! Blackman and Vigna, seeded from a single 64-bit value through splitmix64.
//!
//! The whole generator is a pure function of its four state words, so every
//! draw in the pipeline has an exact contract and the synthesized image is a
//! mathematical function of the seed. The same seeding and stepping algorithm
//! is what `rand_xoshiro`'s `Xoshiro256PlusPlus::seed_from_u64` performs, so a
//! stream can be reproduced with that crate call for call.

use vstd::prelude::*;

verus! {

/// The splitmix64 state increment.
pub const SM_PHI: u64 = 0x9e3779b97f4a7c15;

/// A xoshiro256++ generator: four words of state.
#[derive(Debug, Clone, Copy, PartialEq, Eq, Structural)]
pub struct Rng64 {
    pub s0: u64,
    pub s1: u64,
    pub s2: u64,
    pub s3: u64,
}

/// The output word xoshiro256++ derives from a state: `rotl(s0 + s3, 23) + s0`
/// in wrapping arithmetic.
pub open spec fn next_out_spec(s: Rng64) -> u64 {
    let sum = s.s0.wrapping_add(s.s3);
    let rot = (sum << 23) | (sum >> 41);
    rot.wrapping_add(s.s0)
}

/// The xoshiro256++ state transition.
pub open spec fn next_state_spec(s: Rng64) -> Rng64 {
    let t = s.s1 << 17;
    let s2a = s.s2 ^ s.s0;
    let s3a = s.s3 ^ s.s1;
    let s1a = s.s1 ^ s2a;
    let s0a = s.s0 ^ s3a;
    let s2b = s2a ^ t;
    let s3b = (s3a << 45) | (s3a >> 19);
    Rng64 { s0: s0a, s1: s1a, s2: s2b, s3: s3b }
}

/// The splitmix64 output mix.
pub open spec fn sm_mix_spec(x: u64) -> u64 {
    let z1 = (x ^ (x >> 30)).wrapping_mul(0xbf58476d1ce4e5b9);
    let z2 = (z1 ^ (z1 >> 27)).wrapping_mul(0x94d049bb133111eb);
    z2 ^ (z2 >> 31)
}

/// The state seeded from a 64-bit value: four successive splitmix64 outputs,
/// with the all-zero outcome mapped to the words splitmix64 derives from zero.
pub open spec fn seed_spec(seed: u64) -> Rng64 {
    let x0 = seed.wrapping_add(SM_PHI);
    let x1 = x0.wrapping_add(SM_PHI);
    let x2 = x1.wrapping_add(SM_PHI);
    let x3 = x2.wrapping_add(SM_PHI);
    let w0 = sm_mix_spec(x0);
    let w1 = sm_mix_spec(x1);
    let w2 = sm_mix_spec(x2);
    let w3 = sm_mix_spec(x3);
    if w0 == 0 && w1 == 0 && w2 == 0 && w3 == 0 {
        Rng64 {
            s0: 0xe220a8397b1dcdaf,
            s1: 0x6e789e6aa1b965f4,
            s2: 0x06c45d188009454f,
            s3: 0xf88bb8a8724c81ec,
        }
    } else {
        Rng64 { s0: w0, s1: w1, s2: w2, s3: w3 }
    }
}

/// A draw scaled into `[0, n)` by widening multiplication.
pub open spec fn scale_below_spec(x: u64, n: u64) -> int {
    (x * n) / 0x1_0000_0000_0000_0000
}

/// One splitmix64 output mix.
fn sm_mix(x: u64) -> (z: u64)
    ensures
        z == sm_mix_spec(x),
{
    let z1 = (x ^ (x >> 30)).wrapping_mul(0xbf58476d1ce4e5b9);
    let z2 = (z1 ^ (z1 >> 27)).wrapping_mul(0x94d049bb133111eb);
    z2 ^ (z2 >> 31)
}

impl Rng64 {
    /// Seed a generator from a 64-bit value using splitmix64.
    pub fn seed_from_u64(seed: u64) -> (rng: Rng64)
        ensures
            rng == seed_spec(seed),
    {
        let x0 = seed.wrapping_add(SM_PHI);
        let x1 = x0.wrapping_add(SM_PHI);
        let x2 = x1.wrapping_add(SM_PHI);
        let x3 = x2.wrapping_add(SM_PHI);
        let w0 = sm_mix(x0);
        let w1 = sm_mix(x1);
        let w2 = sm_mix(x2);
        let w3 = sm_mix(x3);
        if w0 == 0 && w1 == 0 && w2 == 0 && w3 == 0 {
            Rng64 {
                s0: 0xe220a8397b1dcdaf,
                s1: 0x6e789e6aa1b965f4,
                s2: 0x06c45d188009454f,
                s3: 0xf88bb8a8724c81ec,
            }
        } else {
            Rng64 { s0: w0, s1: w1, s2: w2, s3: w3 }
        }
    }

    /// Draw the next 64-bit word and advance the state.
    pub fn next_u64(&mut self) -> (out: u64)
        ensures
            *final(self) == next_state_spec(*old(self)),
            out == next_out_spec(*old(self)),
    {
        let sum = self.s0.wrapping_add(self.s3);
        let out = ((sum << 23) | (sum >> 41)).wrapping_add(self.s0);

        let t = self.s1 << 17;
        self.s2 = self.s2 ^ self.s0;
        self.s3 = self.s3 ^ self.s1;
        self.s1 = self.s1 ^ self.s2;
        self.s0 = self.s0 ^ self.s3;
        self.s2 = self.s2 ^ t;
        self.s3 = (self.s3 << 45) | (self.s3 >> 19);

        out
    }

    /// Draw a value uniformly scaled into `[0, n)`.
    pub fn below(&mut self, n: u64) -> (r: u64)
        requires
            1 <= n,
        ensures
            *final(self) == next_state_spec(*old(self)),
            r == scale_below_spec(next_out_spec(*old(self)), n),
            r < n,
    {
        let x = self.next_u64();
        proof {
            assert((x as int) * (n as int) <= (u64::MAX as int) * (u64::MAX as int))
                by (nonlinear_arith)
                requires
                    0 <= x <= u64::MAX,
                    0 <= n <= u64::MAX,
            ;
        }
        let wide: u128 = (x as u128) * (n as u128);
        let q: u128 = wide / 0x1_0000_0000_0000_0000u128;
        proof {
            assert((x as int) * (n as int) < 0x1_0000_0000_0000_0000 * (n as int))
                by (nonlinear_arith)
                requires
                    x <= u64::MAX,
                    n >= 1,
            ;
            assert((x as int) * (n as int) / 0x1_0000_0000_0000_0000 < n as int)
                by (nonlinear_arith)
                requires
                    (x as int) * (n as int) < 0x1_0000_0000_0000_0000 * (n as int),
                    (x as int) * (n as int) >= 0,
            ;
        }
        q as u64
    }
}

} // verus!
