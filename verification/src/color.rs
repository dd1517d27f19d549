//! Radiance in three colour channels.

use vstd::prelude::*;
use crate::fixed::spec_mul;
use crate::uvec::UVec4;

verus! {

/// Radiance in three channels, Q16.16 each.
#[derive(Clone, Copy, Debug, PartialEq, Eq, Structural)]
pub struct Rgb {
    pub r: u32,
    pub g: u32,
    pub b: u32,
}

/// One channel times a weight, rounded down and saturated at `u32::MAX`.
pub open spec fn spec_weigh(channel: u32, w: u64) -> u32 {
    if spec_mul(channel as int, w as int) > u32::MAX {
        u32::MAX
    } else {
        spec_mul(channel as int, w as int) as u32
    }
}

fn weigh(channel: u32, w: u64) -> (r: u32)
    ensures
        r == spec_weigh(channel, w),
{
    assert(0 <= channel * w <= 0xffff_ffff * 0xffff_ffff_ffff_ffff) by (nonlinear_arith)
        requires
            0 <= channel <= 0xffff_ffff,
            0 <= w <= 0xffff_ffff_ffff_ffff,
    ;
    let wide: u128 = (channel as u128) * (w as u128) / 65536;
    if wide > u32::MAX as u128 {
        u32::MAX
    } else {
        wide as u32
    }
}

impl Rgb {
    /// No light.
    pub open spec fn spec_black() -> Rgb {
        Rgb { r: 0, g: 0, b: 0 }
    }

    /// Radiance times a weight, channel by channel.
    pub open spec fn spec_scale(self, w: u64) -> Rgb {
        Rgb { r: spec_weigh(self.r, w), g: spec_weigh(self.g, w), b: spec_weigh(self.b, w) }
    }

    /// Radiance as a texel, with a fourth word of zero.
    pub open spec fn spec_extend(self) -> UVec4 {
        UVec4 { x: self.r, y: self.g, z: self.b, w: 0 }
    }

    /// A weight of one leaves radiance as it is, and a weight of zero
    /// leaves none.
    pub proof fn lemma_scale(c: Rgb)
        ensures
            c.spec_scale(65536) == c,
            c.spec_scale(0) == Self::spec_black(),
    {
        assert(forall|v: u32| #[trigger] spec_mul(v as int, 65536) == v);
        assert(forall|v: u32| #[trigger] spec_mul(v as int, 0) == 0);
    }

    pub fn scale(&self, w: u64) -> (r: Rgb)
        ensures
            r == self.spec_scale(w),
            w == 0 ==> r == Self::spec_black(),
            *self == Self::spec_black() ==> r == Self::spec_black(),
    {
        assert(forall|c: u32| #[trigger] spec_mul(c as int, 0) == 0);
        assert(spec_mul(0, w as int) == 0) by (nonlinear_arith);
        Rgb { r: weigh(self.r, w), g: weigh(self.g, w), b: weigh(self.b, w) }
    }

    pub fn extend(&self) -> (r: UVec4)
        ensures
            r == self.spec_extend(),
    {
        UVec4 { x: self.r, y: self.g, z: self.b, w: 0 }
    }
}

} // verus!
