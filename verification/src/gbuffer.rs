//! The geometry buffer: what the primary hit of each pixel looked like.

use vstd::prelude::*;
use crate::normal::{spec_stored, Normal, Vec3};
use crate::surface::Surface;
use crate::uvec::UVec4;

verus! {

/// The primary hit of one pixel, as the tracing pass leaves it for the
/// passes that shade. A depth of zero means that the ray hit nothing.
#[derive(Clone, Copy, Debug, PartialEq, Eq, Structural)]
pub struct GBufferEntry {
    /// Base colour, four 8-bit channels in one word.
    pub base_color: u32,
    pub normal: Vec3,
    pub metallic: u32,
    /// Emitted light, packed into one word.
    pub emissive: u32,
    pub roughness: u32,
    pub reflectance: u32,
    pub depth: u32,
}

impl GBufferEntry {
    /// The two texels of an entry. The first has the layout of the surface
    /// map: the normal's two words, depth, roughness. The second holds what
    /// else shading needs.
    pub open spec fn spec_pack(self) -> (UVec4, UVec4) {
        (
            UVec4 {
                x: Normal::spec_encode(self.normal).0 as u32,
                y: Normal::spec_encode(self.normal).1 as u32,
                z: self.depth,
                w: self.roughness,
            },
            UVec4 {
                x: self.base_color,
                y: self.emissive,
                z: self.metallic,
                w: self.reflectance,
            },
        )
    }

    /// The entry that two texels hold.
    pub open spec fn spec_unpack(d0: UVec4, d1: UVec4) -> GBufferEntry {
        GBufferEntry {
            base_color: d1.x,
            normal: Normal::spec_decode(d0.x as int, d0.y as int),
            metallic: d1.z,
            emissive: d1.y,
            roughness: d0.w,
            reflectance: d1.w,
            depth: d0.z,
        }
    }

    /// The surface of an entry.
    pub open spec fn spec_surface(self) -> Surface {
        Surface { normal: self.normal, depth: self.depth, roughness: self.roughness }
    }

    /// Whether the pixel's ray hit geometry.
    pub open spec fn spec_is_some(self) -> bool {
        self.depth != 0
    }

    /// The entry of a surface with the given material data.
    pub fn from_surface(
        surface: Surface,
        base_color: u32,
        emissive: u32,
        metallic: u32,
        reflectance: u32,
    ) -> (r: GBufferEntry)
        ensures
            r.spec_surface() == surface,
            r.base_color == base_color,
            r.emissive == emissive,
            r.metallic == metallic,
            r.reflectance == reflectance,
    {
        GBufferEntry {
            base_color,
            normal: surface.normal,
            metallic,
            emissive,
            roughness: surface.roughness,
            reflectance,
            depth: surface.depth,
        }
    }

    pub fn pack(&self) -> (r: [UVec4; 2])
        ensures
            (r@[0], r@[1]) == self.spec_pack(),
    {
        let n = Normal::encode(self.normal);
        [
            UVec4 { x: n.0, y: n.1, z: self.depth, w: self.roughness },
            UVec4 {
                x: self.base_color,
                y: self.emissive,
                z: self.metallic,
                w: self.reflectance,
            },
        ]
    }

    pub fn unpack(d: [UVec4; 2]) -> (r: GBufferEntry)
        ensures
            r == Self::spec_unpack(d@[0], d@[1]),
            r.normal.spec_in_unit_cube(),
    {
        let d0: UVec4 = d[0];
        let d1: UVec4 = d[1];
        GBufferEntry {
            base_color: d1.x,
            normal: Normal::decode(d0.x, d0.y),
            metallic: d1.z,
            emissive: d1.y,
            roughness: d0.w,
            reflectance: d1.w,
            depth: d0.z,
        }
    }

    pub fn surface(&self) -> (r: Surface)
        ensures
            r == self.spec_surface(),
    {
        Surface { normal: self.normal, depth: self.depth, roughness: self.roughness }
    }

    pub fn is_some(&self) -> (r: bool)
        ensures
            r == self.spec_is_some(),
    {
        self.depth != 0
    }

    /// Packing an entry and unpacking it gives back its depth, roughness
    /// and material data as they were, and its normal as it is stored. Where
    /// the normal's components lie in `[-1, 1]`, as those of a unit vector
    /// do, each comes back within `1/65536` of what it was.
    pub proof fn lemma_unpack_pack(e: GBufferEntry)
        ensures
            ({
                let d = e.spec_pack();
                let u = Self::spec_unpack(d.0, d.1);
                &&& u.depth == e.depth
                &&& u.roughness == e.roughness
                &&& u.base_color == e.base_color
                &&& u.emissive == e.emissive
                &&& u.metallic == e.metallic
                &&& u.reflectance == e.reflectance
                &&& u.normal.x == spec_stored(e.normal.x as int)
                &&& u.normal.y == spec_stored(e.normal.y as int)
                &&& u.normal.z == spec_stored(e.normal.z as int)
                &&& e.normal.spec_in_unit_cube() ==> {
                    &&& -1 <= u.normal.x - e.normal.x <= 1
                    &&& -1 <= u.normal.y - e.normal.y <= 1
                    &&& -1 <= u.normal.z - e.normal.z <= 1
                }
            }),
    {
        Normal::lemma_decode_encode(e.normal);
        Normal::lemma_stored_in_range(e.normal.x as int);
        Normal::lemma_stored_in_range(e.normal.y as int);
        Normal::lemma_stored_in_range(e.normal.z as int);
        if e.normal.spec_in_unit_cube() {
            Normal::lemma_stored_is_close(e.normal.x as int);
            Normal::lemma_stored_is_close(e.normal.y as int);
            Normal::lemma_stored_is_close(e.normal.z as int);
        }
    }
}

} // verus!
