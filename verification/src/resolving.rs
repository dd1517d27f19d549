//! Resolving: from a pixel's final reservoir to its radiance.
//!
//! Resolving a pixel takes two steps with shading in between. `load` reads
//! what the pixel holds; the caller then evaluates the radiance that the
//! kept light sends from the hit towards the camera, or that of the sky
//! along the pixel's ray; `store` weighs it and writes the results.

use vstd::prelude::*;
use crate::camera::Camera;
use crate::color::Rgb;
use crate::gbuffer::GBufferEntry;
use crate::image::{Image, TexRgba32};
use crate::light::{spec_shade, Light, LightsView};
use crate::normal::Vec3;
use crate::resampling::{
    lemma_spatial_of_nothing, lemma_static_light_among_neighbors, lemma_static_light_is_stable,
    lemma_temporal_of_nothing, spec_one_static_light, spec_settled_neighbor, spec_spatial,
    spec_temporal, History, Neighbor, ResamplingConfig, Scored,
};
use crate::reservoir::DiReservoir;
use crate::sampling::spec_stream;
use crate::surface::Surface;
use crate::uvec::{UVec2, UVec4};

verus! {

/// What resolving reads for one pixel.
#[derive(Clone, Copy, Debug, PartialEq, Eq, Structural)]
pub struct Pixel {
    pub screen_pos: UVec2,
    /// The pixel's slot in the reservoir buffers.
    pub screen_idx: u64,
    pub hit: GBufferEntry,
    pub reservoir: DiReservoir,
}

/// One 8-bit channel of a packed colour as a Q16.16 number: 255 is one.
pub open spec fn spec_channel(packed: u32, index: int) -> u32 {
    let byte = if index == 0 {
        packed % 256
    } else if index == 1 {
        packed / 256 % 256
    } else {
        packed / 65536 % 256
    };
    (byte * 65536 / 255) as u32
}

/// The share of light that a surface of a given base colour sends on:
/// its red, green and blue, which are the three low bytes of the word.
pub open spec fn spec_albedo(base_color: u32) -> Rgb {
    Rgb {
        r: spec_channel(base_color, 0),
        g: spec_channel(base_color, 1),
        b: spec_channel(base_color, 2),
    }
}

/// The albedo of a base colour.
pub fn albedo(base_color: u32) -> (r: Rgb)
    ensures
        r == spec_albedo(base_color),
{
    Rgb {
        r: (base_color % 256) * 65536 / 255,
        g: (base_color / 256 % 256) * 65536 / 255,
        b: (base_color / 65536 % 256) * 65536 / 255,
    }
}

impl Pixel {
    /// What the light that the pixel's reservoir keeps sends on from the
    /// pixel's hit, which lies at `point`: nothing where the scene has no
    /// light of that number.
    pub open spec fn spec_radiance(&self, lights: Seq<Light>, point: Vec3) -> Rgb {
        if self.reservoir.sample.light_id < lights.len() {
            lights[self.reservoir.sample.light_id as int].spec_contribution(
                point,
                self.hit.normal,
                spec_albedo(self.hit.base_color),
            )
        } else {
            Rgb::spec_black()
        }
    }

    /// The pixel's colour in a scene of diffuse surfaces: the kept light's
    /// contribution times the reservoir's weight where the pixel shows
    /// geometry, the sky's radiance where it does not.
    pub open spec fn spec_shaded(&self, lights: Seq<Light>, point: Vec3, sky: Rgb) -> Rgb {
        if self.hit.spec_is_some() {
            self.spec_color(self.spec_radiance(lights, point))
        } else {
            self.spec_color(sky)
        }
    }

    /// Evaluates the kept light at the pixel's hit.
    pub fn radiance(&self, lights: &LightsView, point: &Vec3) -> (r: Rgb)
        ensures
            r == self.spec_radiance(lights@, *point),
            lights@.len() == 0 ==> r == Rgb::spec_black(),
    {
        match lights.get(self.reservoir.sample.light_id) {
            Some(light) => light.contribution(point, &self.hit.normal, albedo(self.hit.base_color)),
            None => Rgb { r: 0, g: 0, b: 0 },
        }
    }

    /// The pixel's colour in a scene of diffuse surfaces.
    pub fn shaded(&self, lights: &LightsView, point: &Vec3, sky: Rgb) -> (r: Rgb)
        ensures
            r == self.spec_shaded(lights@, *point, sky),
            self.hit.spec_is_some() && lights@.len() == 0 ==> r == Rgb::spec_black(),
            !self.hit.spec_is_some() ==> r == sky,
    {
        if self.hit.is_some() {
            let radiance = self.radiance(lights, point);
            self.color(radiance)
        } else {
            self.color(sky)
        }
    }

    /// The pixel's colour. Where the pixel's ray hit geometry, `radiance`
    /// is what the kept light sends from the hit, and it counts with the
    /// reservoir's weight; where it shows sky, `radiance` is that of the
    /// atmosphere and is taken as it is.
    pub open spec fn spec_color(&self, radiance: Rgb) -> Rgb {
        if self.hit.spec_is_some() {
            radiance.spec_scale(self.reservoir.w)
        } else {
            radiance
        }
    }

    /// A pixel that shows geometry resolves to exactly what its light
    /// sends where the reservoir weighs one, and to black where it weighs
    /// nothing, as it does in a scene without lights. A pixel that shows
    /// sky resolves to the radiance of the atmosphere.
    pub proof fn lemma_color(pixel: Pixel, radiance: Rgb)
        ensures
            pixel.hit.spec_is_some() && pixel.reservoir.w == 65536 ==> pixel.spec_color(radiance)
                == radiance,
            pixel.hit.spec_is_some() && pixel.reservoir.w == 0 ==> pixel.spec_color(radiance)
                == Rgb::spec_black(),
            !pixel.hit.spec_is_some() ==> pixel.spec_color(radiance) == radiance,
    {
        Rgb::lemma_scale(radiance);
    }

    pub fn color(&self, radiance: Rgb) -> (r: Rgb)
        ensures
            r == self.spec_color(radiance),
            self.hit.spec_is_some() && (self.reservoir.w == 0 || radiance == Rgb::spec_black())
                ==> r == Rgb::spec_black(),
    {
        if self.hit.is_some() {
            radiance.scale(self.reservoir.w)
        } else {
            radiance
        }
    }
}

/// In a scene without lights no pixel that shows geometry gets any direct
/// light. Without lights there are no candidates, so the fresh reservoir is
/// the empty one fed with an empty stream; history and neighbours, made the
/// same way, stand for nothing either; and what temporal and spatial
/// resampling make of them resolves to black, whatever radiance is offered.
pub proof fn lemma_no_lights_no_radiance(
    cfg: ResamplingConfig,
    pixel: Pixel,
    surface: Surface,
    p_hat: u64,
    history: History,
    neighbors: Seq<Neighbor>,
    draws: Seq<u64>,
    random: u64,
    radiance: Rgb,
)
    requires
        pixel.hit.spec_is_some(),
        history.scored.reservoir.m == 0,
        forall|j: int| 0 <= j < neighbors.len() ==> (#[trigger] neighbors[j]).scored.reservoir.m == 0,
        pixel.reservoir == spec_spatial(
            cfg,
            pixel.screen_pos,
            surface,
            Scored {
                reservoir: spec_temporal(
                    cfg,
                    surface,
                    Scored {
                        reservoir: spec_stream(DiReservoir::spec_empty(), Seq::empty(), draws),
                        p_hat,
                    },
                    history,
                    random,
                ),
                p_hat,
            },
            neighbors,
        ),
    ensures
        pixel.spec_color(radiance) == Rgb::spec_black(),
{
    let fresh = Scored {
        reservoir: spec_stream(DiReservoir::spec_empty(), Seq::empty(), draws),
        p_hat,
    };
    lemma_temporal_of_nothing(cfg, surface, fresh, history, random);
    let current = Scored { reservoir: spec_temporal(cfg, surface, fresh, history, random), p_hat };
    lemma_spatial_of_nothing(cfg, pixel.screen_pos, surface, current, neighbors);
    Pixel::lemma_color(pixel, radiance);
}

/// Under one static light a pixel that shows geometry resolves, in every
/// frame, to exactly the radiance that the light sends from the hit: the
/// image is converged from the first frame on and does not change from one
/// frame to the next. The fresh reservoir holds candidates of the light
/// alone; history, where there is any, is what such a frame left; and the
/// neighbours are settled on the same light.
pub proof fn lemma_static_light_resolves_to_its_radiance(
    cfg: ResamplingConfig,
    pixel: Pixel,
    surface: Surface,
    fresh: Scored,
    history: History,
    neighbors: Seq<Neighbor>,
    random: u64,
    radiance: Rgb,
    lights: Seq<Light>,
    point: Vec3,
    sky: Rgb,
)
    requires
        pixel.hit.spec_is_some(),
        spec_one_static_light(cfg, fresh, history),
        forall|j: int|
            0 <= j < neighbors.len() ==> spec_settled_neighbor(
                cfg,
                fresh.reservoir.sample,
                fresh.p_hat,
                #[trigger] neighbors[j],
            ),
        cfg.max_m * (neighbors.len() + 1) <= u32::MAX,
        fresh.p_hat * (cfg.max_m * (neighbors.len() + 1)) <= u64::MAX,
        pixel.reservoir == spec_spatial(
            cfg,
            pixel.screen_pos,
            surface,
            Scored {
                reservoir: spec_temporal(cfg, surface, fresh, history, random),
                p_hat: fresh.p_hat,
            },
            neighbors,
        ),
    ensures
        pixel.spec_color(radiance) == radiance,
        pixel.spec_shaded(lights, point, sky) == pixel.spec_radiance(lights, point),
        pixel.reservoir.sample == fresh.reservoir.sample,
        pixel.reservoir.w == 65536,
{
    Pixel::lemma_color(pixel, pixel.spec_radiance(lights, point));
    lemma_static_light_is_stable(cfg, surface, fresh, history, random);
    let current = Scored {
        reservoir: spec_temporal(cfg, surface, fresh, history, random),
        p_hat: fresh.p_hat,
    };
    lemma_static_light_among_neighbors(cfg, pixel.screen_pos, surface, current, neighbors);
    Pixel::lemma_color(pixel, radiance);
}

/// Without lights a pixel that shows geometry is black, whatever its
/// reservoir holds, and a pixel that shows sky has the sky's radiance.
pub proof fn lemma_no_lights(pixel: Pixel, lights: Seq<Light>, point: Vec3, sky: Rgb)
    requires
        lights.len() == 0,
    ensures
        pixel.hit.spec_is_some() ==> pixel.spec_shaded(lights, point, sky) == Rgb::spec_black(),
        !pixel.hit.spec_is_some() ==> pixel.spec_shaded(lights, point, sky) == sky,
{
    Rgb::lemma_scale(Rgb::spec_black());
    assert(forall|w: u64| #[trigger] crate::fixed::spec_mul(0, w as int) == 0) by {
        assert forall|w: u64| #[trigger] crate::fixed::spec_mul(0, w as int) == 0 by {
            assert(0 * (w as int) == 0);
        }
    }
}

/// What `load` finds for a pixel inside the viewport.
pub open spec fn spec_load(
    global_id: UVec2,
    camera: Camera,
    prim_gbuffer_d0: TexRgba32,
    prim_gbuffer_d1: TexRgba32,
    next_reservoirs: Seq<UVec4>,
) -> Pixel {
    Pixel {
        screen_pos: global_id,
        screen_idx: camera.spec_screen_to_idx(global_id) as u64,
        hit: GBufferEntry::spec_unpack(
            prim_gbuffer_d0.spec_read(global_id),
            prim_gbuffer_d1.spec_read(global_id),
        ),
        reservoir: DiReservoir::spec_read(next_reservoirs, camera.spec_screen_to_idx(global_id)),
    }
}

/// Reads the primary hit and the final reservoir of a pixel. There is
/// nothing to resolve outside the camera's viewport.
pub fn load(
    global_id: UVec2,
    camera: &Camera,
    prim_gbuffer_d0: TexRgba32,
    prim_gbuffer_d1: TexRgba32,
    next_reservoirs: &Vec<UVec4>,
) -> (r: Option<Pixel>)
    ensures
        r is Some <==> camera.spec_contains(global_id),
        r matches Some(pixel) ==> pixel == spec_load(
            global_id,
            *camera,
            prim_gbuffer_d0,
            prim_gbuffer_d1,
            next_reservoirs@,
        ),
{
    let screen_idx: u64 = camera.screen_to_idx(global_id);
    if !camera.contains(global_id) {
        return None;
    }
    let hit = GBufferEntry::unpack(
        [prim_gbuffer_d0.read(global_id), prim_gbuffer_d1.read(global_id)],
    );
    let reservoir = DiReservoir::read(next_reservoirs, screen_idx);
    Some(Pixel { screen_pos: global_id, screen_idx, hit, reservoir })
}

/// Writes a pixel's colour to the output, and its reservoir to the buffer
/// from which the next frame reads its history.
pub fn store(
    pixel: &Pixel,
    radiance: Rgb,
    prev_reservoirs: &mut Vec<UVec4>,
    output: &mut Image,
)
    ensures
        final(output).spec_size() == old(output).spec_size(),
        old(output).spec_contains(pixel.screen_pos) ==> final(output).spec_read(pixel.screen_pos)
            == pixel.spec_color(radiance).spec_extend(),
        forall|other: UVec2|
            other != pixel.screen_pos ==> #[trigger] final(output).spec_read(other) == old(
                output,
            ).spec_read(other),
        final(prev_reservoirs)@ == pixel.reservoir.spec_write(
            old(prev_reservoirs)@,
            pixel.screen_idx as int,
        ),
{
    let color: Rgb = pixel.color(radiance);
    output.write(pixel.screen_pos, color.extend());
    pixel.reservoir.write(prev_reservoirs, pixel.screen_idx);
}

/// Under one static light straight above a level surface, `height` away and
/// within its range, the pixel under the light resolves in every frame to
/// the light's radiance times the surface's albedo over the squared height,
/// rounded down: the value of the diffuse falloff formula. This holds
/// through temporal and spatial resampling, whatever is drawn.
pub proof fn lemma_pixel_under_the_light(
    cfg: ResamplingConfig,
    pixel: Pixel,
    surface: Surface,
    fresh: Scored,
    history: History,
    neighbors: Seq<Neighbor>,
    random: u64,
    lights: Seq<Light>,
    point: Vec3,
    sky: Rgb,
    height: int,
)
    requires
        pixel.hit.spec_is_some(),
        pixel.hit.normal == (Vec3 { x: 0, y: 65536, z: 0 }),
        spec_one_static_light(cfg, fresh, history),
        forall|j: int|
            0 <= j < neighbors.len() ==> spec_settled_neighbor(
                cfg,
                fresh.reservoir.sample,
                fresh.p_hat,
                #[trigger] neighbors[j],
            ),
        cfg.max_m * (neighbors.len() + 1) <= u32::MAX,
        fresh.p_hat * (cfg.max_m * (neighbors.len() + 1)) <= u64::MAX,
        pixel.reservoir == spec_spatial(
            cfg,
            pixel.screen_pos,
            surface,
            Scored {
                reservoir: spec_temporal(cfg, surface, fresh, history, random),
                p_hat: fresh.p_hat,
            },
            neighbors,
        ),
        fresh.reservoir.sample.light_id < lights.len(),
        0 < height <= lights[fresh.reservoir.sample.light_id as int].range,
        lights[fresh.reservoir.sample.light_id as int].position.x == point.x,
        lights[fresh.reservoir.sample.light_id as int].position.y - point.y == height,
        lights[fresh.reservoir.sample.light_id as int].position.z == point.z,
    ensures
        ({
            let light = lights[fresh.reservoir.sample.light_id as int];
            let albedo = spec_albedo(pixel.hit.base_color);
            pixel.spec_shaded(lights, point, sky) == (Rgb {
                r: spec_shade(light.radiance.r, albedo.r, 65536, height * height),
                g: spec_shade(light.radiance.g, albedo.g, 65536, height * height),
                b: spec_shade(light.radiance.b, albedo.b, 65536, height * height),
            })
        }),
{
    lemma_static_light_resolves_to_its_radiance(
        cfg,
        pixel,
        surface,
        fresh,
        history,
        neighbors,
        random,
        sky,
        lights,
        point,
        sky,
    );
    let light = lights[fresh.reservoir.sample.light_id as int];
    light.lemma_straight_above(point, spec_albedo(pixel.hit.base_color), height);
}

/// Resolves a pixel in a scene of diffuse surfaces: evaluates the kept
/// light at the hit, which lies at `point`, or takes the sky's radiance
/// where the pixel shows sky, and stores the outcome.
pub fn resolve(
    pixel: &Pixel,
    lights: &LightsView,
    point: &Vec3,
    sky: Rgb,
    prev_reservoirs: &mut Vec<UVec4>,
    output: &mut Image,
)
    ensures
        final(output).spec_size() == old(output).spec_size(),
        old(output).spec_contains(pixel.screen_pos) ==> final(output).spec_read(pixel.screen_pos)
            == pixel.spec_shaded(lights@, *point, sky).spec_extend(),
        forall|other: UVec2|
            other != pixel.screen_pos ==> #[trigger] final(output).spec_read(other) == old(
                output,
            ).spec_read(other),
        final(prev_reservoirs)@ == pixel.reservoir.spec_write(
            old(prev_reservoirs)@,
            pixel.screen_idx as int,
        ),
{
    let radiance: Rgb = if pixel.hit.is_some() {
        pixel.radiance(lights, point)
    } else {
        sky
    };
    store(pixel, radiance, prev_reservoirs, output);
}

} // verus!
