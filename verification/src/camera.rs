//! Cameras as the host hands them over, one per frame.

use vstd::prelude::*;
use crate::uvec::UVec2;

verus! {

/// What the drawing pass puts on screen.
#[derive(Clone, Copy, Debug, PartialEq, Eq, Structural)]
pub enum CameraMode {
    /// The final composite of direct and indirect lighting.
    Image,
    /// Direct lighting alone.
    DirectLighting,
    /// Indirect lighting alone.
    IndirectLighting,
    /// Surface normals.
    Normals,
}

impl CameraMode {
    /// The number under which the drawing shader knows a mode.
    pub open spec fn spec_serialize(&self) -> u32 {
        match self {
            CameraMode::Image => 0,
            CameraMode::DirectLighting => 1,
            CameraMode::IndirectLighting => 2,
            CameraMode::Normals => 3,
        }
    }

    pub fn serialize(&self) -> (r: u32)
        ensures
            r == self.spec_serialize(),
    {
        match self {
            CameraMode::Image => 0,
            CameraMode::DirectLighting => 1,
            CameraMode::IndirectLighting => 2,
            CameraMode::Normals => 3,
        }
    }

    /// Distinct modes have distinct numbers.
    pub proof fn lemma_serialize_injective(a: CameraMode, b: CameraMode)
        requires
            a.spec_serialize() == b.spec_serialize(),
        ensures
            a == b,
    {
    }
}

/// `wgpu::TextureFormat`: the pixel format of a texture. The library
/// hands it on and never looks inside.
#[verifier::external_type_specification]
#[verifier::external_body]
pub struct ExTextureFormat(wgpu::TextureFormat);

/// The rectangle of the target that a camera draws into, in pixels, and
/// the pixel format of that target.
#[derive(Clone, Copy, Debug, PartialEq, Eq)]
pub struct CameraViewport {
    pub format: wgpu::TextureFormat,
    pub position: UVec2,
    pub size: UVec2,
}

/// A camera. It does not change while a frame is drawn.
#[derive(Clone, Copy, Debug, PartialEq, Eq)]
pub struct Camera {
    pub mode: CameraMode,
    pub viewport: CameraViewport,
}

impl Camera {
    /// Whether a pixel lies inside the viewport, counted from its corner.
    pub open spec fn spec_contains(&self, screen_pos: UVec2) -> bool {
        screen_pos.x < self.viewport.size.x && screen_pos.y < self.viewport.size.y
    }

    /// Row-major index of a pixel in a buffer with one slot per pixel.
    pub open spec fn spec_screen_to_idx(&self, screen_pos: UVec2) -> int {
        screen_pos.y * self.viewport.size.x + screen_pos.x
    }

    pub fn contains(&self, screen_pos: UVec2) -> (r: bool)
        ensures
            r == self.spec_contains(screen_pos),
    {
        screen_pos.x < self.viewport.size.x && screen_pos.y < self.viewport.size.y
    }

    pub fn screen_to_idx(&self, screen_pos: UVec2) -> (r: u64)
        ensures
            r == self.spec_screen_to_idx(screen_pos),
    {
        assert(0 <= screen_pos.y * self.viewport.size.x <= 0xffff_ffff * 0xffff_ffff)
            by (nonlinear_arith)
            requires
                0 <= screen_pos.y <= 0xffff_ffff,
                0 <= self.viewport.size.x <= 0xffff_ffff,
        ;
        (screen_pos.y as u64) * (self.viewport.size.x as u64) + (screen_pos.x as u64)
    }

    /// Number of pixels of the viewport.
    pub open spec fn spec_pixels(&self) -> int {
        self.viewport.size.x * self.viewport.size.y
    }

    /// The pixel that has a given slot, counting row by row.
    pub open spec fn spec_idx_to_screen(&self, idx: int) -> UVec2 {
        UVec2 {
            x: (idx % (self.viewport.size.x as int)) as u32,
            y: (idx / (self.viewport.size.x as int)) as u32,
        }
    }

    pub fn pixels(&self) -> (r: u64)
        ensures
            r == self.spec_pixels(),
    {
        assert(0 <= self.viewport.size.x * self.viewport.size.y <= 0xffff_ffff * 0xffff_ffff)
            by (nonlinear_arith)
            requires
                0 <= self.viewport.size.x <= 0xffff_ffff,
                0 <= self.viewport.size.y <= 0xffff_ffff,
        ;
        (self.viewport.size.x as u64) * (self.viewport.size.y as u64)
    }

    /// The pixel of a slot below the number of pixels: it lies inside the
    /// viewport, and its slot is the given one.
    pub fn idx_to_screen(&self, idx: u64) -> (r: UVec2)
        requires
            idx < self.spec_pixels(),
        ensures
            r == self.spec_idx_to_screen(idx as int),
            self.spec_contains(r),
            self.spec_screen_to_idx(r) == idx,
    {
        let width: u64 = self.viewport.size.x as u64;
        assert(width > 0) by (nonlinear_arith)
            requires
                0 <= idx < width * self.viewport.size.y,
                width >= 0,
        ;
        let x: u64 = idx % width;
        let y: u64 = idx / width;
        assert(y < self.viewport.size.y && y * width + x == idx) by (nonlinear_arith)
            requires
                width > 0,
                0 <= idx < width * self.viewport.size.y,
                x == idx % width,
                y == idx / width,
        ;
        UVec2 { x: x as u32, y: y as u32 }
    }

    /// Whether buffers that were made for an older camera cannot serve this
    /// one: they are indexed by pixel, so any change of the viewport's size
    /// invalidates them. Moving the viewport or changing its pixel format or
    /// the mode does not.
    pub open spec fn spec_is_invalidated_by(&self, older: &Camera) -> bool {
        self.viewport.size != older.viewport.size
    }

    pub fn is_invalidated_by(&self, older: &Camera) -> (r: bool)
        ensures
            r == self.spec_is_invalidated_by(older),
    {
        self.viewport.size.x != older.viewport.size.x || self.viewport.size.y
            != older.viewport.size.y
    }

    /// Inside the viewport distinct pixels have distinct slots, and every
    /// slot lies below the number of pixels.
    pub proof fn lemma_screen_to_idx(&self, a: UVec2, b: UVec2)
        requires
            self.spec_contains(a),
            self.spec_contains(b),
        ensures
            0 <= self.spec_screen_to_idx(a) < self.viewport.size.x * self.viewport.size.y,
            self.spec_screen_to_idx(a) == self.spec_screen_to_idx(b) ==> a == b,
    {
        crate::image::lemma_index_in_range(self.viewport.size, a);
        if self.spec_screen_to_idx(a) == self.spec_screen_to_idx(b) {
            crate::image::lemma_index_injective(self.viewport.size, a, b);
        }
    }
}

} // verus!
