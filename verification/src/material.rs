//! Materials: what the host describes and what the renderer shades with.

use vstd::prelude::*;

verus! {

/// A colour with opacity, four Q16.16 channels.
#[derive(Clone, Copy, Debug, PartialEq, Eq, Structural)]
pub struct Rgba {
    pub r: u32,
    pub g: u32,
    pub b: u32,
    pub a: u32,
}

impl Rgba {
    /// The same colour with another opacity.
    pub open spec fn spec_with_alpha(self, a: u32) -> Rgba {
        Rgba { a, ..self }
    }

    pub fn with_alpha(self, a: u32) -> (r: Rgba)
        ensures
            r == self.spec_with_alpha(a),
    {
        Rgba { r: self.r, g: self.g, b: self.b, a }
    }
}

/// How the host blends a material.
#[derive(Clone, Copy, Debug, PartialEq, Eq, Structural)]
pub enum HostAlphaMode {
    Opaque,
    /// Opaque where the base colour's opacity reaches the cutoff, and
    /// fully transparent elsewhere.
    Mask(u32),
    Blend,
    Premultiplied,
    Add,
    Multiply,
}

/// How the renderer blends a material.
#[derive(Clone, Copy, Debug, PartialEq, Eq, Structural)]
pub enum AlphaMode {
    Opaque,
    Blend,
}

/// The host's standard material, as far as the renderer reads it.
/// Textures are named by their image's handle.
#[derive(Clone, Copy, Debug, PartialEq, Eq, Structural)]
pub struct StandardMaterial {
    pub base_color: Rgba,
    pub base_color_texture: Option<u64>,
    pub emissive: Rgba,
    pub emissive_texture: Option<u64>,
    pub perceptual_roughness: u32,
    pub metallic: u32,
    pub reflectance: u32,
    pub normal_map_texture: Option<u64>,
    pub alpha_mode: HostAlphaMode,
}

/// The renderer's material.
#[derive(Clone, Copy, Debug, PartialEq, Eq, Structural)]
pub struct Material {
    pub base_color: Rgba,
    pub base_color_texture: Option<u64>,
    pub emissive: Rgba,
    pub emissive_texture: Option<u64>,
    pub perceptual_roughness: u32,
    pub metallic: u32,
    pub reflectance: u32,
    /// Index of refraction.
    pub ior: u32,
    pub normal_map_texture: Option<u64>,
    pub alpha_mode: AlphaMode,
}

/// The standard material with what this renderer supports beyond it.
#[derive(Clone, Copy, Debug, PartialEq, Eq, Structural)]
pub struct StrolleMaterial {
    pub parent: StandardMaterial,
    /// Index of refraction; one, that of air, unless set.
    pub ior: u32,
}

/// Names a material of either kind.
#[derive(Clone, Copy, Debug, PartialEq, Eq, Hash, Structural)]
pub enum MaterialId {
    Standard(u64),
    Strolle(u64),
}

/// The textures named by two optional handles, in their order.
pub open spec fn spec_handles(first: Option<u64>, second: Option<u64>) -> Seq<u64> {
    (match first {
        Some(handle) => seq![handle],
        None => Seq::empty(),
    }) + (match second {
        Some(handle) => seq![handle],
        None => Seq::empty(),
    })
}

impl StandardMaterial {
    /// The host's defaults: white, not emissive, half rough, not metallic,
    /// reflectance one half, opaque, no textures.
    pub open spec fn spec_default() -> StandardMaterial {
        StandardMaterial {
            base_color: Rgba { r: 65536, g: 65536, b: 65536, a: 65536 },
            base_color_texture: None,
            emissive: Rgba { r: 0, g: 0, b: 0, a: 65536 },
            emissive_texture: None,
            perceptual_roughness: 32768,
            metallic: 0,
            reflectance: 32768,
            normal_map_texture: None,
            alpha_mode: HostAlphaMode::Opaque,
        }
    }

    /// The base colour that the renderer shades with. An opaque material
    /// is fully opaque whatever its colour says; a masked one is fully
    /// opaque where its opacity reaches the cutoff and fully transparent
    /// where it does not; any other keeps its opacity.
    pub open spec fn spec_base_color(self) -> Rgba {
        match self.alpha_mode {
            HostAlphaMode::Opaque => self.base_color.spec_with_alpha(65536),
            HostAlphaMode::Mask(mask) => if self.base_color.a >= mask {
                self.base_color.spec_with_alpha(65536)
            } else {
                self.base_color.spec_with_alpha(0)
            },
            _ => self.base_color,
        }
    }

    /// The renderer's blending: opaque for an opaque material, blended
    /// for any other.
    pub open spec fn spec_alpha_mode(self) -> AlphaMode {
        match self.alpha_mode {
            HostAlphaMode::Opaque => AlphaMode::Opaque,
            _ => AlphaMode::Blend,
        }
    }

    /// The renderer's material, with the index of refraction of air.
    pub open spec fn spec_into_material(self) -> Material {
        Material {
            base_color: self.spec_base_color(),
            base_color_texture: self.base_color_texture,
            emissive: self.emissive,
            emissive_texture: self.emissive_texture,
            perceptual_roughness: self.perceptual_roughness,
            metallic: self.metallic,
            reflectance: self.reflectance,
            ior: 65536,
            normal_map_texture: self.normal_map_texture,
            alpha_mode: self.spec_alpha_mode(),
        }
    }

    pub fn into_material(self) -> (r: Material)
        ensures
            r == self.spec_into_material(),
    {
        let base_color = {
            let color = self.base_color;
            match self.alpha_mode {
                HostAlphaMode::Opaque => color.with_alpha(65536),
                HostAlphaMode::Mask(mask) => {
                    if color.a >= mask {
                        color.with_alpha(65536)
                    } else {
                        color.with_alpha(0)
                    }
                },
                _ => color,
            }
        };
        let alpha_mode = match self.alpha_mode {
            HostAlphaMode::Opaque => AlphaMode::Opaque,
            _ => AlphaMode::Blend,
        };
        Material {
            base_color,
            base_color_texture: self.base_color_texture,
            emissive: self.emissive,
            emissive_texture: self.emissive_texture,
            perceptual_roughness: self.perceptual_roughness,
            metallic: self.metallic,
            reflectance: self.reflectance,
            ior: 65536,
            normal_map_texture: self.normal_map_texture,
            alpha_mode,
        }
    }

    pub fn map_id(id: u64) -> (r: MaterialId)
        ensures
            r == MaterialId::Standard(id),
    {
        MaterialId::Standard(id)
    }

    /// The images that the renderer needs for the material: the base
    /// colour's texture, then the normal map, as far as there are any.
    pub fn images(&self) -> (r: Vec<u64>)
        ensures
            r@ == spec_handles(self.base_color_texture, self.normal_map_texture),
    {
        let mut r: Vec<u64> = Vec::new();
        match self.base_color_texture {
            Some(handle) => {
                r.push(handle);
            },
            None => {},
        }
        match self.normal_map_texture {
            Some(handle) => {
                r.push(handle);
            },
            None => {},
        }
        assert(r@ =~= spec_handles(self.base_color_texture, self.normal_map_texture));
        r
    }
}

impl Default for StandardMaterial {
    fn default() -> (r: Self)
        ensures
            r == StandardMaterial::spec_default(),
    {
        StandardMaterial {
            base_color: Rgba { r: 65536, g: 65536, b: 65536, a: 65536 },
            base_color_texture: None,
            emissive: Rgba { r: 0, g: 0, b: 0, a: 65536 },
            emissive_texture: None,
            perceptual_roughness: 32768,
            metallic: 0,
            reflectance: 32768,
            normal_map_texture: None,
            alpha_mode: HostAlphaMode::Opaque,
        }
    }
}

impl StrolleMaterial {
    /// The renderer's material: that of the parent, with this material's
    /// index of refraction.
    pub open spec fn spec_into_material(self) -> Material {
        Material { ior: self.ior, ..self.parent.spec_into_material() }
    }

    pub fn into_material(self) -> (r: Material)
        ensures
            r == self.spec_into_material(),
    {
        let parent = self.parent.into_material();
        Material {
            base_color: parent.base_color,
            base_color_texture: parent.base_color_texture,
            emissive: parent.emissive,
            emissive_texture: parent.emissive_texture,
            perceptual_roughness: parent.perceptual_roughness,
            metallic: parent.metallic,
            reflectance: parent.reflectance,
            ior: self.ior,
            normal_map_texture: parent.normal_map_texture,
            alpha_mode: parent.alpha_mode,
        }
    }

    pub fn map_id(id: u64) -> (r: MaterialId)
        ensures
            r == MaterialId::Strolle(id),
    {
        MaterialId::Strolle(id)
    }

    /// The images that the renderer needs for the material: those of the
    /// parent.
    pub fn images(&self) -> (r: Vec<u64>)
        ensures
            r@ == spec_handles(self.parent.base_color_texture, self.parent.normal_map_texture),
    {
        self.parent.images()
    }
}

impl Default for StrolleMaterial {
    fn default() -> (r: Self)
        ensures
            r == (StrolleMaterial { parent: StandardMaterial::spec_default(), ior: 65536 }),
    {
        StrolleMaterial { parent: StandardMaterial::default(), ior: 65536 }
    }
}

} // verus!
