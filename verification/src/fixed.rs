//! Fixed-point scalar arithmetic for the image pipeline.
//!
//! Every channel value, coordinate and weight in this crate is an `i64`
//! counting millionths, so `FP_ONE` stands for the real value one. Products
//! and quotients are rounded toward zero, matching the hardware behaviour of
//! the two's-complement division the executable code performs.

use vstd::prelude::*;

verus! {

/// The fixed-point unit: values count millionths.
pub const FP_ONE: i64 = 1_000_000;

/// Magnitude bound under which `fp_mul` and `fp_div` are free of overflow.
pub const FP_ARG_LIMIT: i64 = 2_000_000_000_000;

/// `a * b` scaled back down by `FP_ONE`, rounded toward zero.
pub open spec fn fp_mul_spec(a: int, b: int) -> int {
    if a * b >= 0 {
        (a * b) / (FP_ONE as int)
    } else {
        -((-(a * b)) / (FP_ONE as int))
    }
}

/// `a / b` scaled up by `FP_ONE` first, rounded toward zero.
pub open spec fn fp_div_spec(a: int, b: int) -> int {
    if a >= 0 {
        (a * (FP_ONE as int)) / b
    } else {
        -((-a * (FP_ONE as int)) / b)
    }
}

/// `v` forced into `[lo, hi]`.
pub open spec fn clamp_spec(v: int, lo: int, hi: int) -> int {
    if v < lo {
        lo
    } else if v > hi {
        hi
    } else {
        v
    }
}

/// Fixed-point product of two scalars, rounded toward zero.
pub fn fp_mul(a: i64, b: i64) -> (r: i64)
    requires
        -FP_ARG_LIMIT <= a <= FP_ARG_LIMIT,
        -FP_ARG_LIMIT <= b <= FP_ARG_LIMIT,
    ensures
        r == fp_mul_spec(a as int, b as int),
{
    proof {
        assert((a as int) * (b as int) <= FP_ARG_LIMIT * FP_ARG_LIMIT
            && (a as int) * (b as int) >= -(FP_ARG_LIMIT * FP_ARG_LIMIT)) by (nonlinear_arith)
            requires
                -FP_ARG_LIMIT <= a <= FP_ARG_LIMIT,
                -FP_ARG_LIMIT <= b <= FP_ARG_LIMIT,
        ;
    }
    let p: i128 = (a as i128) * (b as i128);
    if p >= 0 {
        let q: i128 = p / 1_000_000i128;
        proof {
            lemma_div_shrinks_nonneg(p as int, 1_000_000);
        }
        q as i64
    } else {
        let q: i128 = (-p) / 1_000_000i128;
        proof {
            lemma_div_shrinks_nonneg(-(p as int), 1_000_000);
        }
        -(q as i64)
    }
}

/// Fixed-point quotient `a / b`, rounded toward zero; `b` must be positive.
pub fn fp_div(a: i64, b: i64) -> (r: i64)
    requires
        -FP_ARG_LIMIT <= a <= FP_ARG_LIMIT,
        1 <= b,
    ensures
        r == fp_div_spec(a as int, b as int),
{
    proof {
        assert((a as int) * 1_000_000 <= FP_ARG_LIMIT * 1_000_000
            && (a as int) * 1_000_000 >= -(FP_ARG_LIMIT * 1_000_000)) by (nonlinear_arith)
            requires
                -FP_ARG_LIMIT <= a <= FP_ARG_LIMIT,
        ;
    }
    let p: i128 = (a as i128) * 1_000_000i128;
    if p >= 0 {
        let q: i128 = p / (b as i128);
        proof {
            lemma_div_shrinks_nonneg(p as int, b as int);
        }
        q as i64
    } else {
        let q: i128 = (-p) / (b as i128);
        proof {
            lemma_div_shrinks_nonneg(-(p as int), b as int);
        }
        -(q as i64)
    }
}

/// `v` forced into `[lo, hi]`.
pub fn clamp_fp(v: i64, lo: i64, hi: i64) -> (r: i64)
    requires
        lo <= hi,
    ensures
        r == clamp_spec(v as int, lo as int, hi as int),
{
    if v < lo {
        lo
    } else if v > hi {
        hi
    } else {
        v
    }
}

/// A nonnegative value shrinks (or keeps its size) under division by a positive
/// divisor.
pub proof fn lemma_div_shrinks_nonneg(p: int, d: int)
    requires
        p >= 0,
        d >= 1,
    ensures
        0 <= p / d <= p,
{
    assert(0 <= p / d <= p) by (nonlinear_arith)
        requires
            p >= 0,
            d >= 1,
    ;
}

/// Division by a positive constant keeps order.
pub proof fn lemma_div_ordered(a: int, b: int, d: int)
    requires
        a <= b,
        d >= 1,
    ensures
        a / d <= b / d,
{
    assert(a / d <= b / d) by (nonlinear_arith)
        requires
            a <= b,
            d >= 1,
    ;
}

/// The magnitude of a truncating fixed-point product is bounded by the product
/// of the factors' magnitude bounds, scaled down.
pub proof fn lemma_fp_mul_bound(a: int, b: int, aa: int, bb: int)
    requires
        -aa <= a <= aa,
        -bb <= b <= bb,
        0 <= aa,
        0 <= bb,
    ensures
        -((aa * bb) / (FP_ONE as int)) <= fp_mul_spec(a, b) <= (aa * bb) / (FP_ONE as int),
{
    assert(-(aa * bb) <= a * b <= aa * bb) by (nonlinear_arith)
        requires
            -aa <= a <= aa,
            -bb <= b <= bb,
            0 <= aa,
            0 <= bb,
    ;
    if a * b >= 0 {
        lemma_div_ordered(a * b, aa * bb, FP_ONE as int);
        lemma_div_shrinks_nonneg(a * b, FP_ONE as int);
    } else {
        lemma_div_ordered(-(a * b), aa * bb, FP_ONE as int);
        lemma_div_shrinks_nonneg(-(a * b), FP_ONE as int);
    }
}

/// A fixed-point product with a factor in the unit interval shrinks the other
/// nonnegative factor.
pub proof fn lemma_fp_mul_unit(a: int, b: int)
    requires
        0 <= a,
        0 <= b <= FP_ONE as int,
    ensures
        0 <= fp_mul_spec(a, b) <= a,
        fp_mul_spec(a, b) == (a * b) / (FP_ONE as int),
{
    assert(0 <= a * b <= a * (FP_ONE as int)) by (nonlinear_arith)
        requires
            0 <= a,
            0 <= b <= FP_ONE as int,
    ;
    lemma_div_ordered(a * b, a * (FP_ONE as int), FP_ONE as int);
    lemma_div_shrinks_nonneg(a * b, FP_ONE as int);
    assert((a * (FP_ONE as int)) / (FP_ONE as int) == a)
        by (nonlinear_arith);
}

/// Values small enough in magnitude to be fed to `fp_mul` and `fp_div`.
pub open spec fn fp_safe(v: int) -> bool {
    -FP_ARG_LIMIT <= v <= FP_ARG_LIMIT
}

/// A fixed-point product with a first factor in the unit interval shrinks the
/// other nonnegative factor.
pub proof fn lemma_fp_mul_le_second(a: int, b: int)
    requires
        0 <= a <= FP_ONE as int,
        0 <= b,
    ensures
        0 <= fp_mul_spec(a, b) <= b,
{
    assert(0 <= a * b <= (FP_ONE as int) * b) by (nonlinear_arith)
        requires
            0 <= a <= FP_ONE as int,
            0 <= b,
    ;
    lemma_div_ordered(a * b, (FP_ONE as int) * b, FP_ONE as int);
    lemma_div_shrinks_nonneg(a * b, FP_ONE as int);
    assert(((FP_ONE as int) * b) / (FP_ONE as int) == b) by (nonlinear_arith);
}

/// Scaling with the fixed-point unit as the first factor is exact.
pub proof fn lemma_fp_mul_one_left(b: int)
    ensures
        fp_mul_spec(FP_ONE as int, b) == b,
{
    assert((FP_ONE as int) * b == b * (FP_ONE as int)) by (nonlinear_arith);
    lemma_fp_mul_one(b);
    assert(fp_mul_spec(b, FP_ONE as int) == b);
}

/// Scaling by the fixed-point unit itself is exact.
pub proof fn lemma_fp_mul_one(a: int)
    ensures
        fp_mul_spec(a, FP_ONE as int) == a,
{
    if a >= 0 {
        assert(a * (FP_ONE as int) >= 0) by (nonlinear_arith)
            requires
                a >= 0,
        ;
        assert((a * (FP_ONE as int)) / (FP_ONE as int) == a) by (nonlinear_arith);
    } else {
        assert(a * (FP_ONE as int) < 0) by (nonlinear_arith)
            requires
                a < 0,
        ;
        assert((-(a * (FP_ONE as int))) / (FP_ONE as int) == -a) by (nonlinear_arith);
    }
}

/// Dividing by the fixed-point unit after scaling up by it is exact.
pub proof fn lemma_fp_div_one(a: int)
    ensures
        fp_div_spec(a, FP_ONE as int) == a,
{
    if a >= 0 {
        assert((a * (FP_ONE as int)) / (FP_ONE as int) == a) by (nonlinear_arith);
    } else {
        assert(((-a) * (FP_ONE as int)) / (FP_ONE as int) == -a) by (nonlinear_arith);
    }
}

/// Subtracting a nonnegative amount from a multiple of the divisor before
/// dividing loses at least the divided amount.
pub proof fn lemma_sub_div(a: int, b: int, d: int)
    requires
        0 <= b,
        1 <= d,
    ensures
        (a * d - b) / d <= a - b / d,
{
    let q = b / d;
    let r = b % d;
    vstd::arithmetic::div_mod::lemma_fundamental_div_mod(b, d);
    assert(a * d - b == (a - q) * d - r) by (nonlinear_arith)
        requires
            b == d * q + r,
    ;
    if r == 0 {
        assert(((a - q) * d) / d == a - q) by (nonlinear_arith)
            requires
                d >= 1,
        ;
    } else {
        assert((a - q) * d - r == (a - q - 1) * d + (d - r)) by (nonlinear_arith);
        assert(((a - q - 1) * d + (d - r)) / d == a - q - 1) by (nonlinear_arith)
            requires
                d >= 1,
                0 < d - r < d,
        ;
    }
}

/// The integer square root: the largest `r` with `r * r <= n`.
pub open spec fn isqrt_spec(n: nat) -> nat
    decreases n,
{
    if n == 0 {
        0
    } else {
        let p = isqrt_spec((n - 1) as nat);
        if (p + 1) * (p + 1) <= n {
            p + 1
        } else {
            p
        }
    }
}

/// `isqrt_spec` indeed brackets `n` between consecutive squares.
pub proof fn lemma_isqrt_bounds(n: nat)
    ensures
        isqrt_spec(n) * isqrt_spec(n) <= n,
        n < (isqrt_spec(n) + 1) * (isqrt_spec(n) + 1),
    decreases n,
{
    let r = isqrt_spec(n);
    if n == 0 {
        assert(r == 0);
        assert(r * r <= n && n < (r + 1) * (r + 1)) by (nonlinear_arith)
            requires
                r == 0,
                n == 0,
        ;
    } else {
        lemma_isqrt_bounds((n - 1) as nat);
        let p = isqrt_spec((n - 1) as nat);
        if (p + 1) * (p + 1) <= n {
            assert(r == p + 1);
            assert(n - 1 < (p + 1) * (p + 1));
            assert(n == (p + 1) * (p + 1));
            assert(r * r <= n && n < (r + 1) * (r + 1)) by (nonlinear_arith)
                requires
                    r == p + 1,
                    n == (p + 1) * (p + 1),
            ;
        } else {
            assert(r == p);
            assert(p * p <= n - 1);
            assert(r * r <= n && n < (r + 1) * (r + 1)) by (nonlinear_arith)
                requires
                    r == p,
                    p * p <= n,
                    n < (p + 1) * (p + 1),
            ;
        }
    }
}

/// Any value bracketed between consecutive squares is the integer square root.
pub proof fn lemma_isqrt_unique(n: nat, r: nat)
    requires
        r * r <= n,
        n < (r + 1) * (r + 1),
    ensures
        r == isqrt_spec(n),
{
    let s = isqrt_spec(n);
    lemma_isqrt_bounds(n);
    if r < s {
        assert((r + 1) * (r + 1) <= s * s) by (nonlinear_arith)
            requires
                r + 1 <= s,
        ;
    } else if s < r {
        assert((s + 1) * (s + 1) <= r * r) by (nonlinear_arith)
            requires
                s + 1 <= r,
        ;
    }
}

/// The integer square root of `n`, by bisection.
pub fn isqrt(n: u64) -> (r: u64)
    ensures
        r == isqrt_spec(n as nat),
        r * r <= n,
        n < (r + 1) * (r + 1),
        r < 4_294_967_296,
{
    let mut lo: u64 = 0;
    let mut hi: u64 = 4_294_967_296;
    proof {
        assert((hi as int) * (hi as int) > n as int) by (nonlinear_arith)
            requires
                hi == 4_294_967_296,
                n <= u64::MAX,
        ;
    }
    while lo + 1 < hi
        invariant
            0 <= lo < hi <= 4_294_967_296,
            (lo as int) * (lo as int) <= n as int,
            (hi as int) * (hi as int) > n as int,
        decreases hi - lo,
    {
        let mid: u64 = lo + (hi - lo) / 2;
        proof {
            assert((mid as int) * (mid as int) <= 4_294_967_296int * 4_294_967_296int)
                by (nonlinear_arith)
                requires
                    0 <= mid <= 4_294_967_296,
            ;
        }
        if (mid as u128) * (mid as u128) <= n as u128 {
            lo = mid;
        } else {
            hi = mid;
        }
    }
    proof {
        lemma_isqrt_unique(n as nat, lo as nat);
    }
    lo
}

} // verus!
