//! Unsigned screen-space vectors and the tiling of a viewport into 8x8 warps.

use vstd::prelude::*;

verus! {

/// Edge of a square compute tile, in pixels.
pub const WARP: u32 = 8;

/// A pair of unsigned 32-bit coordinates: a pixel position or a size.
#[derive(Clone, Copy, Debug, PartialEq, Eq, Structural)]
pub struct UVec2 {
    pub x: u32,
    pub y: u32,
}

/// Four 32-bit words: the content of one texel or of one buffer slot.
#[derive(Clone, Copy, Debug, PartialEq, Eq, Structural)]
pub struct UVec4 {
    pub x: u32,
    pub y: u32,
    pub z: u32,
    pub w: u32,
}

/// `glam::UVec2 / u32`: glam divides each component by the scalar, which
/// must not be zero.
#[verifier::external_body]
fn glam_div(v: UVec2, rhs: u32) -> (r: UVec2)
    requires
        rhs != 0,
    ensures
        r.x == v.x / rhs,
        r.y == v.y / rhs,
{
    let q = glam::UVec2::new(v.x, v.y) / rhs;
    UVec2 { x: q.x, y: q.y }
}

/// `glam::UVec2 + u32`: glam adds the scalar to each component with the
/// plain `u32` addition, so neither sum may pass `u32::MAX`.
#[verifier::external_body]
fn glam_add(v: UVec2, rhs: u32) -> (r: UVec2)
    requires
        v.x + rhs <= u32::MAX,
        v.y + rhs <= u32::MAX,
    ensures
        r.x == v.x + rhs,
        r.y == v.y + rhs,
{
    let s = glam::UVec2::new(v.x, v.y) + rhs;
    UVec2 { x: s.x, y: s.y }
}

impl UVec2 {
    pub fn new(x: u32, y: u32) -> (r: UVec2)
        ensures
            r.x == x,
            r.y == y,
    {
        UVec2 { x, y }
    }

    /// Number of tiles needed to cover a size, per axis.
    pub open spec fn spec_covering_warps(self) -> UVec2 {
        UVec2 { x: ((self.x + 7) / 8) as u32, y: ((self.y + 7) / 8) as u32 }
    }

    /// Tiles that cover every pixel, a trailing partial tile included.
    pub fn covering_warps(self) -> (r: UVec2)
        requires
            self.x <= u32::MAX - 7,
            self.y <= u32::MAX - 7,
        ensures
            r == self.spec_covering_warps(),
            8 * (r.x - 1) < self.x <= 8 * r.x,
            8 * (r.y - 1) < self.y <= 8 * r.y,
    {
        glam_div(glam_add(self, WARP - 1), WARP)
    }
}

} // verus!
