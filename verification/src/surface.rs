//! Per-pixel surfaces, their similarity score and the surface map.

use vstd::prelude::*;
use crate::fixed::{distance, spec_abs, HALF, ONE};
use crate::image::TexRgba32;
use crate::normal::{spec_dot_clamped, Normal, Vec3};
use crate::uvec::UVec2;

verus! {

/// What later passes need to know of the surface seen through a pixel.
/// A depth of zero means that the pixel shows the sky.
#[derive(Clone, Copy, Debug, PartialEq, Eq, Structural)]
pub struct Surface {
    pub normal: Vec3,
    pub depth: u32,
    pub roughness: u32,
}

/// Agreement of two normals, from their clamped dot product: nothing up to
/// one half, twice the dot product above it.
pub open spec fn spec_normal_score(dot: int) -> int {
    if dot <= 32768 {
        0
    } else {
        2 * dot
    }
}

/// Agreement of two depths. Two depths that both lie closer than one unit
/// to the camera agree fully, whatever their difference: a comparison
/// relative to the depth is unstable there. Where the first depth alone
/// lies that close, the score falls by the absolute difference, and is zero
/// from a difference of one unit on. Everywhere else, which is decided by
/// the first depth, the score falls linearly to zero, which it reaches where
/// the difference is a tenth of the second depth.
pub open spec fn spec_depth_score(depth: int, other: int) -> int {
    let t = spec_abs(depth - other);
    if depth < 65536 {
        if other < 65536 {
            65536
        } else if t >= 65536 {
            0
        } else {
            65536 - t
        }
    } else if 10 * t >= other {
        0
    } else {
        65536 - (10 * t * 65536) / other
    }
}

/// Similarity of two surfaces: zero if either is sky, else the product of
/// the two agreements.
pub open spec fn spec_similarity(a: Surface, b: Surface) -> int {
    if a.depth == 0 || b.depth == 0 {
        0
    } else {
        spec_normal_score(spec_dot_clamped(a.normal, b.normal)) * spec_depth_score(
            a.depth as int,
            b.depth as int,
        ) / 65536
    }
}

fn normal_score(dot: u64) -> (r: u64)
    requires
        dot <= 3 * 0x4000_0000_0000,
    ensures
        r == spec_normal_score(dot as int),
        r <= 6 * 0x4000_0000_0000,
{
    if dot <= HALF as u64 {
        0
    } else {
        2 * dot
    }
}

fn depth_score(depth: u32, other: u32) -> (r: u64)
    ensures
        r == spec_depth_score(depth as int, other as int),
        r <= 65536,
{
    let t: u64 = distance(depth, other) as u64;
    if depth < ONE {
        if other < ONE {
            ONE as u64
        } else if t >= ONE as u64 {
            0
        } else {
            ONE as u64 - t
        }
    } else if 10 * t >= other as u64 {
        0
    } else {
        let fall: u64 = (10 * t * 65536) / (other as u64);
        assert(fall <= 65536) by (nonlinear_arith)
            requires
                10 * t < other,
                fall == (10 * t * 65536) / (other as int),
        ;
        ONE as u64 - fall
    }
}

impl Surface {
    pub open spec fn spec_is_sky(&self) -> bool {
        self.depth == 0
    }

    #[verifier::when_used_as_spec(spec_is_sky)]
    pub fn is_sky(&self) -> (r: bool)
        ensures
            r == self.spec_is_sky(),
    {
        self.depth == 0
    }

    /// Score that tells how alike two surfaces are. It is zero whenever
    /// either surface is sky, and reaches two for equal unit normals at equal
    /// depths.
    pub fn evaluate_similarity_to(&self, other: &Surface) -> (r: u64)
        ensures
            r == spec_similarity(*self, *other),
            self.is_sky() || other.is_sky() ==> r == 0,
    {
        if self.is_sky() || other.is_sky() {
            return 0;
        }
        let normal: u64 = normal_score(self.normal.dot_clamped(&other.normal));
        let depth: u64 = depth_score(self.depth, other.depth);
        assert(0 <= (normal as int) * (depth as int) <= 6 * 0x4000_0000_0000 * 65536)
            by (nonlinear_arith)
            requires
                0 <= normal <= 6 * 0x4000_0000_0000,
                0 <= depth <= 65536,
        ;
        ((normal as u128) * (depth as u128) / 65536) as u64
    }

    /// A surface that is not sky agrees fully with itself in depth, so its
    /// similarity to itself is the agreement of its normal with itself:
    /// twice the squared length of the normal where that is above one half,
    /// and zero elsewhere. It is two for a normal of length one, and never
    /// one.
    pub proof fn lemma_self_similarity(a: Surface)
        requires
            !a.is_sky(),
        ensures
            spec_depth_score(a.depth as int, a.depth as int) == 65536,
            spec_similarity(a, a) == spec_normal_score(spec_dot_clamped(a.normal, a.normal)),
            spec_dot_clamped(a.normal, a.normal) == 65536 ==> spec_similarity(a, a) == 2 * 65536,
            spec_similarity(a, a) == 0 || spec_similarity(a, a) > 65536,
    {
        let n = spec_normal_score(spec_dot_clamped(a.normal, a.normal));
        assert(n * 65536 / 65536 == n);
    }

    /// Two surfaces that both lie closer than one unit to the camera agree
    /// fully in depth, whatever the difference between their depths: their
    /// similarity is the agreement of their normals. With equal normals
    /// each is as similar to the other as it is to itself.
    pub proof fn lemma_near_similarity(a: Surface, b: Surface)
        requires
            !a.is_sky(),
            !b.is_sky(),
            a.depth < 65536,
            b.depth < 65536,
        ensures
            spec_depth_score(a.depth as int, b.depth as int) == 65536,
            spec_similarity(a, b) == spec_normal_score(spec_dot_clamped(a.normal, b.normal)),
            a.normal == b.normal ==> spec_similarity(a, b) == spec_similarity(a, a),
    {
        let n = spec_normal_score(spec_dot_clamped(a.normal, b.normal));
        assert(n * 65536 / 65536 == n);
        let m = spec_normal_score(spec_dot_clamped(a.normal, a.normal));
        assert(m * 65536 / 65536 == m);
    }

    /// Sky is similar to nothing, and nothing is similar to sky.
    pub proof fn lemma_sky_similarity(a: Surface, b: Surface)
        requires
            a.is_sky() || b.is_sky(),
        ensures
            spec_similarity(a, b) == 0,
    {
    }
}

/// Read access to the texture that holds one surface per pixel: the two
/// words of the normal, then depth, then roughness.
#[derive(Clone, Copy)]
pub struct SurfaceMap<'a> {
    tex: TexRgba32<'a>,
}

impl<'a> SurfaceMap<'a> {
    /// The texture that the map reads.
    pub closed spec fn spec_tex(&self) -> TexRgba32<'a> {
        self.tex
    }

    /// The surface that the texel at a position holds.
    pub open spec fn spec_get(&self, screen_pos: UVec2) -> Surface {
        let d0 = self.spec_tex().spec_read(screen_pos);
        Surface {
            normal: Normal::spec_decode(d0.x as int, d0.y as int),
            depth: d0.z,
            roughness: d0.w,
        }
    }

    /// The map that reads a texture.
    pub closed spec fn spec_new(tex: TexRgba32<'a>) -> Self {
        Self { tex }
    }

    pub fn new(tex: TexRgba32<'a>) -> (r: Self)
        ensures
            r.spec_tex() == tex,
            r == Self::spec_new(tex),
    {
        Self { tex }
    }

    /// A map reads the texture that it was made for.
    pub proof fn lemma_new(tex: TexRgba32<'a>)
        ensures
            Self::spec_new(tex).spec_tex() == tex,
    {
    }

    /// Surface at a pixel. Outside the texture every pixel is sky.
    pub fn get(&self, screen_pos: UVec2) -> (r: Surface)
        ensures
            r == self.spec_get(screen_pos),
            !self.spec_tex().spec_contains(screen_pos) ==> r.is_sky(),
    {
        let d0 = self.tex.read(screen_pos);
        Surface { normal: Normal::decode(d0.x, d0.y), depth: d0.z, roughness: d0.w }
    }
}

} // verus!
