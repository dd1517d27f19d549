//! Signed vectors and the two-word encoding of surface normals.
//!
//! A normal is stored as three signed 16-bit fractions: `x` and `y` share the
//! first word, `z` takes the low half of the second. A component `c` in
//! `[-1, 1]` is kept as the nearest multiple of `1/32767`.

use vstd::prelude::*;
use crate::fixed::{magnitude, spec_abs, ONE};

verus! {

/// Largest magnitude of a stored 16-bit fraction.
pub const SNORM_MAX: u32 = 32767;

/// A vector of three signed Q16.16 components.
#[derive(Clone, Copy, Debug, PartialEq, Eq, Structural)]
pub struct Vec3 {
    pub x: i32,
    pub y: i32,
    pub z: i32,
}

/// Sum of the component products of two vectors: their dot product times
/// 65536, as a Q32.32 number.
pub open spec fn spec_dot_wide(a: Vec3, b: Vec3) -> int {
    a.x * b.x + a.y * b.y + a.z * b.z
}

/// Dot product of two vectors as a Q16.16 number, rounded down, with
/// negative products taken as zero.
pub open spec fn spec_dot_clamped(a: Vec3, b: Vec3) -> int {
    if spec_dot_wide(a, b) <= 0 {
        0
    } else {
        spec_dot_wide(a, b) / 65536
    }
}

/// The 16-bit fraction nearest to a component, which is first clamped to
/// `[-1, 1]`.
#[verifier::opaque]
pub open spec fn spec_quantize(c: int) -> int {
    let m = if spec_abs(c) > 65536 {
        65536
    } else {
        spec_abs(c)
    };
    let q = (m * 32767 + 32768) / 65536;
    if c < 0 {
        -q
    } else {
        q
    }
}

/// The Q16.16 number nearest to a 16-bit fraction.
#[verifier::opaque]
pub open spec fn spec_dequantize(q: int) -> int {
    let c = (spec_abs(q) * 65536 + 16383) / 32767;
    if q < 0 {
        -c
    } else {
        c
    }
}

/// A fraction in `[-32767, 32767]` as a 16-bit two's complement pattern.
pub open spec fn spec_half_word(q: int) -> int {
    if q < 0 {
        q + 65536
    } else {
        q
    }
}

/// The fraction that a 16-bit pattern holds; the one pattern below the
/// range, `0x8000`, reads as the lowest fraction.
pub open spec fn spec_fraction(h: int) -> int {
    if h == 32768 {
        -32767
    } else if h > 32768 {
        h - 65536
    } else {
        h
    }
}

/// What a component reads back as after it was stored.
pub open spec fn spec_stored(c: int) -> int {
    spec_dequantize(spec_quantize(c))
}

impl Vec3 {
    pub fn new(x: i32, y: i32, z: i32) -> (r: Vec3)
        ensures
            r == (Vec3 { x, y, z }),
    {
        Vec3 { x, y, z }
    }

    /// Every component lies in `[-1, 1]`, as those of a unit vector do.
    pub open spec fn spec_in_unit_cube(self) -> bool {
        &&& -65536 <= self.x <= 65536
        &&& -65536 <= self.y <= 65536
        &&& -65536 <= self.z <= 65536
    }

    /// Dot product clamped to zero from below.
    pub fn dot_clamped(&self, other: &Vec3) -> (r: u64)
        ensures
            r == spec_dot_clamped(*self, *other),
            r <= 3 * 0x4000_0000_0000,
    {
        let xx: i64 = product(self.x, other.x);
        let yy: i64 = product(self.y, other.y);
        let zz: i64 = product(self.z, other.z);
        let wide: i128 = xx as i128 + yy as i128 + zz as i128;
        if wide <= 0 {
            0
        } else {
            (wide / 65536) as u64
        }
    }
}

/// Product of two components as a Q32.32 number.
fn product(a: i32, b: i32) -> (r: i64)
    ensures
        r == a * b,
        -0x4000_0000_0000_0000 <= r <= 0x4000_0000_0000_0000,
{
    assert(-0x4000_0000_0000_0000 <= (a as int) * (b as int) <= 0x4000_0000_0000_0000)
        by (nonlinear_arith)
        requires
            -0x8000_0000 <= a <= 0x7fff_ffff,
            -0x8000_0000 <= b <= 0x7fff_ffff,
    ;
    (a as i64) * (b as i64)
}

/// Stores one component as a 16-bit pattern.
fn quantize(c: i32) -> (h: u32)
    ensures
        h == spec_half_word(spec_quantize(c as int)),
        h < 65536,
{
    reveal(spec_quantize);
    let full: u32 = magnitude(c);
    let m: u64 = if full > ONE {
        ONE as u64
    } else {
        full as u64
    };
    let q: u64 = (m * 32767 + 32768) / 65536;
    if c < 0 && q > 0 {
        (65536 - q) as u32
    } else {
        q as u32
    }
}

/// Reads one component back from a 16-bit pattern.
fn dequantize(h: u32) -> (c: i32)
    requires
        h < 65536,
    ensures
        c == spec_dequantize(spec_fraction(h as int)),
        -65536 <= c <= 65536,
{
    reveal(spec_dequantize);
    let negative: bool = h >= 32768;
    let q: u64 = if h == 32768 {
        32767
    } else if negative {
        65536 - h as u64
    } else {
        h as u64
    };
    let m: u64 = (q * 65536 + 16383) / 32767;
    if negative {
        -(m as i32)
    } else {
        m as i32
    }
}

/// The two-word encoding of normals.
pub struct Normal {}

impl Normal {
    /// The two words that hold a normal.
    pub open spec fn spec_encode(n: Vec3) -> (int, int) {
        (
            spec_half_word(spec_quantize(n.x as int)) + 65536 * spec_half_word(
                spec_quantize(n.y as int),
            ),
            spec_half_word(spec_quantize(n.z as int)),
        )
    }

    /// The normal that two words hold. The high half of the second word is
    /// not read.
    pub open spec fn spec_decode(w0: int, w1: int) -> Vec3 {
        Vec3 {
            x: spec_dequantize(spec_fraction(w0 % 65536)) as i32,
            y: spec_dequantize(spec_fraction(w0 / 65536)) as i32,
            z: spec_dequantize(spec_fraction(w1 % 65536)) as i32,
        }
    }

    pub fn encode(n: Vec3) -> (w: (u32, u32))
        ensures
            (w.0 as int, w.1 as int) == Self::spec_encode(n),
    {
        let hx: u32 = quantize(n.x);
        let hy: u32 = quantize(n.y);
        let hz: u32 = quantize(n.z);
        (hx + 65536 * hy, hz)
    }

    pub fn decode(w0: u32, w1: u32) -> (n: Vec3)
        ensures
            n == Self::spec_decode(w0 as int, w1 as int),
            n.spec_in_unit_cube(),
    {
        Vec3 { x: dequantize(w0 % 65536), y: dequantize(w0 / 65536), z: dequantize(w1 % 65536) }
    }

    /// A component in `[-1, 1]` reads back within one unit of the last
    /// place, `1/65536`, of what was stored.
    pub proof fn lemma_stored_is_close(c: int)
        requires
            -65536 <= c <= 65536,
        ensures
            -1 <= spec_stored(c) - c <= 1,
    {
        reveal(spec_quantize);
        reveal(spec_dequantize);
    }

    /// Decoding an encoded normal gives each component back as it is
    /// stored: clamped to `[-1, 1]` and rounded to a 16-bit fraction.
    pub proof fn lemma_decode_encode(n: Vec3)
        ensures
            ({
                let w = Self::spec_encode(n);
                Self::spec_decode(w.0, w.1)
            }) == (Vec3 {
                x: spec_stored(n.x as int) as i32,
                y: spec_stored(n.y as int) as i32,
                z: spec_stored(n.z as int) as i32,
            }),
            0 <= Self::spec_encode(n).0 <= u32::MAX,
            0 <= Self::spec_encode(n).1 < 65536,
    {
        Self::lemma_fraction_of_half_word(n.x as int);
        Self::lemma_fraction_of_half_word(n.y as int);
        Self::lemma_fraction_of_half_word(n.z as int);
        Self::lemma_stored_in_range(n.x as int);
        Self::lemma_stored_in_range(n.y as int);
        Self::lemma_stored_in_range(n.z as int);
        let hx = spec_half_word(spec_quantize(n.x as int));
        let hy = spec_half_word(spec_quantize(n.y as int));
        let hz = spec_half_word(spec_quantize(n.z as int));
        assert((hx + 65536 * hy) % 65536 == hx);
        assert((hx + 65536 * hy) / 65536 == hy);
        assert(hz % 65536 == hz);
    }

    /// A stored component lies in `[-1, 1]`.
    pub proof fn lemma_stored_in_range(c: int)
        ensures
            -65536 <= spec_stored(c) <= 65536,
    {
        reveal(spec_quantize);
        reveal(spec_dequantize);
    }

    /// A quantized component survives the trip through its bit pattern.
    proof fn lemma_fraction_of_half_word(c: int)
        ensures
            -32767 <= spec_quantize(c) <= 32767,
            0 <= spec_half_word(spec_quantize(c)) < 65536,
            spec_fraction(spec_half_word(spec_quantize(c))) == spec_quantize(c),
    {
        reveal(spec_quantize);
    }
}

} // verus!
