//! Q16.16 fixed-point numbers.
//!
//! A value `v` stands for the rational `v / 65536`. Unsigned quantities
//! (depths, roughness, scores, weights) are held in unsigned integers, signed
//! ones (vector components) in `i32`.

use vstd::prelude::*;

verus! {

/// The number one.
pub const ONE: u32 = 65536;

/// The number one half.
pub const HALF: u32 = 32768;

/// Absolute value of a mathematical integer.
pub open spec fn spec_abs(v: int) -> int {
    if v < 0 {
        -v
    } else {
        v
    }
}

/// Product of two unsigned fixed-point numbers, rounded down.
pub open spec fn spec_mul(a: int, b: int) -> int {
    a * b / 65536
}

/// Largest `u64`, as the bound at which fixed-point results saturate.
pub open spec fn spec_saturate(v: int) -> int {
    if v > u64::MAX {
        u64::MAX as int
    } else {
        v
    }
}

/// Magnitude of a signed component, without overflow at `i32::MIN`.
pub fn magnitude(v: i32) -> (r: u32)
    ensures
        r == spec_abs(v as int),
{
    if v < 0 {
        let w: i64 = -(v as i64);
        w as u32
    } else {
        v as u32
    }
}

/// `|a - b|` of two unsigned numbers.
pub fn distance(a: u32, b: u32) -> (r: u32)
    ensures
        r == spec_abs(a - b),
{
    if a >= b {
        a - b
    } else {
        b - a
    }
}

/// Whether `r` is the square root of `n`, rounded down.
pub open spec fn spec_is_sqrt(n: int, r: int) -> bool {
    0 <= r && r * r <= n < (r + 1) * (r + 1)
}

/// The square root of a number that is not negative, rounded down.
pub open spec fn spec_isqrt(n: int) -> int {
    choose|r: int| spec_is_sqrt(n, r)
}

/// A number has one rounded-down square root only.
pub proof fn lemma_sqrt_unique(n: int, a: int, b: int)
    requires
        spec_is_sqrt(n, a),
        spec_is_sqrt(n, b),
    ensures
        a == b,
{
    if a < b {
        assert((a + 1) * (a + 1) <= b * b) by (nonlinear_arith)
            requires
                0 <= a + 1 <= b,
        ;
    } else if b < a {
        assert((b + 1) * (b + 1) <= a * a) by (nonlinear_arith)
            requires
                0 <= b + 1 <= a,
        ;
    }
}

/// Square root, rounded down.
pub fn isqrt(n: u128) -> (r: u64)
    ensures
        spec_is_sqrt(n as int, r as int),
        r == spec_isqrt(n as int),
{
    let mut lo: u128 = 0;
    let mut hi: u128 = 0x1_0000_0000_0000_0000;
    assert(0 * 0 == 0);
    while hi - lo > 1
        invariant
            0 <= lo < hi <= 0x1_0000_0000_0000_0000,
            lo * lo <= n < hi * hi,
        decreases hi - lo,
    {
        let mid: u128 = lo + (hi - lo) / 2;
        assert(mid * mid <= 0xffff_ffff_ffff_ffff * 0xffff_ffff_ffff_ffff) by (nonlinear_arith)
            requires
                0 <= mid <= 0xffff_ffff_ffff_ffff,
        ;
        if mid * mid <= n {
            lo = mid;
        } else {
            hi = mid;
        }
    }
    proof {
        assert(hi == lo + 1);
        let found = lo as int;
        assert(spec_is_sqrt(n as int, found));
        lemma_sqrt_unique(n as int, found, spec_isqrt(n as int));
    }
    lo as u64
}

/// Fixed-point product, rounded down and saturated at `u64::MAX`.
pub fn mul_saturating(a: u64, b: u64) -> (r: u64)
    ensures
        r == spec_saturate(spec_mul(a as int, b as int)),
{
    assert((a as int) * (b as int) <= 0xffff_ffff_ffff_ffff * 0xffff_ffff_ffff_ffff) by (nonlinear_arith)
        requires
            0 <= a <= 0xffff_ffff_ffff_ffff,
            0 <= b <= 0xffff_ffff_ffff_ffff,
    ;
    assert((a as int) * (b as int) >= 0) by (nonlinear_arith)
        requires
            0 <= a,
            0 <= b,
    ;
    let wide: u128 = (a as u128) * (b as u128) / 65536;
    if wide > u64::MAX as u128 {
        u64::MAX
    } else {
        wide as u64
    }
}

} // verus!
