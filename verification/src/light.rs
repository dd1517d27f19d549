//! The scene's lights.

use vstd::prelude::*;
use crate::color::Rgb;
use crate::fixed::{
    isqrt, lemma_sqrt_unique, mul_saturating, spec_is_sqrt, spec_isqrt, spec_mul,
};
use crate::normal::Vec3;

verus! {

/// The kinds of emitters.
#[derive(Clone, Copy, Debug, PartialEq, Eq, Structural)]
pub enum LightKind {
    /// A sphere that sends light evenly in all directions.
    Point,
}

/// A light. Reservoirs name lights by their place in the scene's list.
#[derive(Clone, Copy, Debug, PartialEq, Eq, Structural)]
pub struct Light {
    pub kind: LightKind,
    /// Centre of the light, in world space.
    pub position: Vec3,
    pub radius: u32,
    pub radiance: Rgb,
    /// Distance beyond which the light does not reach.
    pub range: u32,
}

/// Squared distance between two points, as a Q32.32 number.
pub open spec fn spec_distance_squared(a: Vec3, b: Vec3) -> int {
    (a.x - b.x) * (a.x - b.x) + (a.y - b.y) * (a.y - b.y) + (a.z - b.z) * (a.z - b.z)
}

/// Dot product of a normal with the way from a point to a light, as a
/// Q32.32 number: the cosine of the angle between them times the distance.
pub open spec fn spec_facing(normal: Vec3, point: Vec3, light: Vec3) -> int {
    normal.x * (light.x - point.x) + normal.y * (light.y - point.y) + normal.z * (light.z
        - point.z)
}

/// Cosine of the angle at which light arrives, Q16.16: the facing over the
/// distance, rounded down, and no more than one.
pub open spec fn spec_cosine(facing: int, distance: int) -> int {
    if facing / distance > 65536 {
        65536
    } else {
        facing / distance
    }
}

/// One channel of light that a diffuse surface sends on: radiance times
/// albedo, rounded down, times the cosine over the squared distance,
/// rounded down and saturated at `u32::MAX`.
pub open spec fn spec_shade(radiance: u32, albedo: u32, cosine: int, distance_squared: int)
    -> u32 {
    let out = spec_mul(radiance as int, albedo as int) * cosine * 65536 / distance_squared;
    if out > u32::MAX {
        u32::MAX
    } else {
        out as u32
    }
}

fn shade(radiance: u32, albedo: u32, cosine: u64, distance_squared: u128) -> (r: u32)
    requires
        cosine <= 65536,
        1 <= distance_squared,
    ensures
        r == spec_shade(radiance, albedo, cosine as int, distance_squared as int),
{
    assert(0 <= radiance * albedo <= 0xffff_ffff * 0xffff_ffff) by (nonlinear_arith)
        requires
            0 <= radiance <= 0xffff_ffff,
            0 <= albedo <= 0xffff_ffff,
    ;
    let lit: u64 = mul_saturating(radiance as u64, albedo as u64);
    assert(lit == spec_mul(radiance as int, albedo as int));
    assert(0 <= lit * cosine <= 0x1_0000_0000_0000 * 65536) by (nonlinear_arith)
        requires
            0 <= lit <= 0x1_0000_0000_0000,
            0 <= cosine <= 65536,
    ;
    let wide: u128 = (lit as u128) * (cosine as u128) * 65536 / distance_squared;
    if wide > u32::MAX as u128 {
        u32::MAX
    } else {
        wide as u32
    }
}

impl Light {
    /// The light that the lamp sends on from a point of a diffuse surface:
    /// its radiance times the surface's albedo, times the cosine of the
    /// angle at which it arrives, over the squared distance. There is none
    /// where the lamp sits at the point itself, lies beyond its range, or
    /// shines on the back of the surface.
    pub open spec fn spec_contribution(self, point: Vec3, normal: Vec3, albedo: Rgb) -> Rgb {
        let d2 = spec_distance_squared(self.position, point);
        let facing = spec_facing(normal, point, self.position);
        if d2 == 0 || d2 > self.range * self.range || facing <= 0 {
            Rgb::spec_black()
        } else {
            let cosine = spec_cosine(facing, spec_isqrt(d2));
            Rgb {
                r: spec_shade(self.radiance.r, albedo.r, cosine, d2),
                g: spec_shade(self.radiance.g, albedo.g, cosine, d2),
                b: spec_shade(self.radiance.b, albedo.b, cosine, d2),
            }
        }
    }

    /// A lamp straight above a point of a level surface, `height` away and
    /// within its range, arrives at a cosine of one and falls off with the
    /// square of the height: each channel is the radiance times the albedo
    /// over the squared height, which is a Q32.32 number here.
    pub proof fn lemma_straight_above(self, point: Vec3, albedo: Rgb, height: int)
        requires
            height > 0,
            height <= self.range,
            self.position.x == point.x,
            self.position.y - point.y == height,
            self.position.z == point.z,
        ensures
            ({
                let up = Vec3 { x: 0, y: 65536, z: 0 };
                self.spec_contribution(point, up, albedo) == (Rgb {
                    r: spec_shade(self.radiance.r, albedo.r, 65536, height * height),
                    g: spec_shade(self.radiance.g, albedo.g, 65536, height * height),
                    b: spec_shade(self.radiance.b, albedo.b, 65536, height * height),
                })
            }),
    {
        let up = Vec3 { x: 0, y: 65536, z: 0 };
        let d2 = spec_distance_squared(self.position, point);
        let facing = spec_facing(up, point, self.position);
        assert(d2 == height * height);
        assert(facing == 65536 * height);
        assert(height * height > 0) by (nonlinear_arith)
            requires
                height > 0,
        ;
        assert(height * height <= self.range * self.range) by (nonlinear_arith)
            requires
                0 < height <= self.range,
        ;
        assert(spec_is_sqrt(d2, height)) by (nonlinear_arith)
            requires
                d2 == height * height,
                height > 0,
        ;
        assert(exists|r: int| spec_is_sqrt(d2, r));
        lemma_sqrt_unique(d2, height, spec_isqrt(d2));
        assert((65536 * height) / height == 65536) by (nonlinear_arith)
            requires
                height > 0,
        ;
    }

    /// What the lamp contributes at a point of a diffuse surface.
    pub fn contribution(&self, point: &Vec3, normal: &Vec3, albedo: Rgb) -> (r: Rgb)
        ensures
            r == self.spec_contribution(*point, *normal, albedo),
    {
        let lx: i64 = self.position.x as i64 - point.x as i64;
        let ly: i64 = self.position.y as i64 - point.y as i64;
        let lz: i64 = self.position.z as i64 - point.z as i64;
        let d2: u128 = square(lx) + square(ly) + square(lz);
        let facing: i128 = along(normal.x, lx) + along(normal.y, ly) + along(normal.z, lz);
        assert(0 <= self.range * self.range <= 0xffff_ffff * 0xffff_ffff) by (nonlinear_arith)
            requires
                0 <= self.range <= 0xffff_ffff,
        ;
        let reach: u128 = (self.range as u128) * (self.range as u128);
        if d2 == 0 || d2 > reach || facing <= 0 {
            return Rgb { r: 0, g: 0, b: 0 };
        }
        let distance: u64 = isqrt(d2);
        assert(distance >= 1) by {
            if distance == 0 {
                assert((0 + 1) * (0 + 1) == 1);
            }
        }
        let steep: u128 = (facing as u128) / (distance as u128);
        let cosine: u128 = if steep > 65536 {
            65536
        } else {
            steep
        };
        Rgb {
            r: shade(self.radiance.r, albedo.r, cosine as u64, d2),
            g: shade(self.radiance.g, albedo.g, cosine as u64, d2),
            b: shade(self.radiance.b, albedo.b, cosine as u64, d2),
        }
    }

    pub fn point(position: Vec3, radius: u32, radiance: Rgb, range: u32) -> (r: Light)
        ensures
            r == (Light { kind: LightKind::Point, position, radius, radiance, range }),
    {
        Light { kind: LightKind::Point, position, radius, radiance, range }
    }
}

/// The square of a difference of coordinates.
fn square(v: i64) -> (r: u128)
    requires
        -0x1_0000_0000 < v < 0x1_0000_0000,
    ensures
        r == v * v,
        r <= 0x1_0000_0000 * 0x1_0000_0000,
{
    assert(0 <= v * v <= 0x1_0000_0000 * 0x1_0000_0000) by (nonlinear_arith)
        requires
            -0x1_0000_0000 < v < 0x1_0000_0000,
    ;
    let m: u128 = if v < 0 {
        (-v) as u128
    } else {
        v as u128
    };
    assert(m * m == v * v) by (nonlinear_arith)
        requires
            m == v || m == -v,
    ;
    m * m
}

/// A component of a normal times a difference of coordinates.
fn along(n: i32, v: i64) -> (r: i128)
    requires
        -0x1_0000_0000 < v < 0x1_0000_0000,
    ensures
        r == n * v,
        -0x8000_0000 * 0x1_0000_0000 <= r <= 0x8000_0000 * 0x1_0000_0000,
{
    assert(-0x8000_0000 * 0x1_0000_0000 <= n * v <= 0x8000_0000 * 0x1_0000_0000)
        by (nonlinear_arith)
        requires
            -0x8000_0000 <= n <= 0x7fff_ffff,
            -0x1_0000_0000 < v < 0x1_0000_0000,
    ;
    (n as i128) * (v as i128)
}

/// Read access to the list of lights.
#[derive(Clone, Copy)]
pub struct LightsView<'a> {
    items: &'a Vec<Light>,
}

impl<'a> LightsView<'a> {
    pub closed spec fn view(&self) -> Seq<Light> {
        self.items@
    }

    pub fn new(items: &'a Vec<Light>) -> (r: Self)
        ensures
            r@ == items@,
    {
        Self { items }
    }

    pub fn len(&self) -> (r: usize)
        ensures
            r == self@.len(),
    {
        self.items.len()
    }

    /// The light of a given number, if the list holds that many.
    pub fn get(&self, light_id: u32) -> (r: Option<Light>)
        ensures
            r == (if light_id < self@.len() {
                Some(self@[light_id as int])
            } else {
                None
            }),
    {
        if (light_id as usize) < self.items.len() {
            Some(self.items[light_id as usize])
        } else {
            None
        }
    }
}

} // verus!
