//! One frame of one camera on the host: the three passes of direct
//! lighting, run in their order over the camera's buffers.

use vstd::prelude::*;
use crate::camera::Camera;
use crate::camera_controller::passes::{spec_at, spec_at_entry};
use crate::camera_controller::passes::direct_resolving::DirectResolvingPass;
use crate::camera_controller::passes::direct_spatial_resampling::DirectSpatialResamplingPass;
use crate::camera_controller::passes::direct_temporal_resampling::DirectTemporalResamplingPass;
use crate::color::Rgb;
use crate::image::{Image, TexRgba32};
use crate::light::LightsView;
use crate::normal::Vec3;
use crate::resampling::{
    lemma_static_light_among_neighbors, lemma_static_light_is_stable, spec_gather, spec_nearby,
    spec_reproject, spec_settled_neighbor, History, ReprojectionMap, ResamplingConfig,
    Scored, SPATIAL_NEIGHBORS,
};
use crate::reservoir::{DiReservoir, DiSample};
use crate::resolving::{lemma_no_lights, spec_load, Pixel};
use crate::surface::SurfaceMap;
use crate::uvec::{UVec2, UVec4};

verus! {

/// The buffers and textures that belong to one camera. They are indexed by
/// pixel, so they are made anew whenever the viewport's size changes.
pub struct CameraBuffers {
    /// First texel of each pixel's primary hit: its surface.
    pub direct_gbuffer_d0: Image,
    /// Second texel of each pixel's primary hit: its material.
    pub direct_gbuffer_d1: Image,
    /// The surfaces of the previous frame.
    pub prev_surface_map: Image,
    pub reprojection_map: Image,
    /// This frame's fresh reservoirs.
    pub direct_candidates: Vec<UVec4>,
    pub direct_prev_reservoirs: Vec<UVec4>,
    pub direct_curr_reservoirs: Vec<UVec4>,
    pub direct_next_reservoirs: Vec<UVec4>,
    /// The resolved direct lighting.
    pub direct_samples: Image,
}

/// What shading and the random source supply for one frame, per pixel
/// unless said otherwise.
pub struct Shading {
    /// Where each pixel's hit lies in the world.
    pub points: Vec<Vec3>,
    /// The radiance of the sky along each pixel's ray.
    pub sky: Vec<Rgb>,
    /// Target function of the fresh reservoir's sample.
    pub fresh_p_hat: Vec<u64>,
    /// Target function of the sample that history kept.
    pub history_p_hat: Vec<u64>,
    /// Target function of the sample that temporal resampling kept.
    pub current_p_hat: Vec<u64>,
    /// Target function of each neighbour's sample, per pixel and neighbour.
    pub neighbor_p_hat: Vec<u64>,
    pub temporal_randoms: Vec<u64>,
    /// What picks each neighbour, per pixel and neighbour.
    pub picks: Vec<u64>,
    /// Per pixel and neighbour.
    pub spatial_randoms: Vec<u64>,
}

impl CameraBuffers {
    /// The map of this frame's surfaces: the first texels of the hits.
    pub open spec fn spec_surface_map(&self) -> SurfaceMap {
        SurfaceMap::spec_new(TexRgba32::spec_new(&self.direct_gbuffer_d0))
    }

    /// What temporal resampling makes of a pixel, from the buffers as they
    /// are before the frame.
    pub open spec fn spec_temporal(
        &self,
        cfg: ResamplingConfig,
        camera: Camera,
        shading: Shading,
        idx: int,
    ) -> DiReservoir {
        DirectTemporalResamplingPass::spec_pixel(
            cfg,
            camera,
            self.spec_surface_map(),
            ReprojectionMap::spec_new(TexRgba32::spec_new(&self.reprojection_map)),
            SurfaceMap::spec_new(TexRgba32::spec_new(&self.prev_surface_map)),
            self.direct_candidates@,
            shading.fresh_p_hat@,
            shading.history_p_hat@,
            shading.temporal_randoms@,
            self.direct_prev_reservoirs@,
            idx,
        )
    }

    /// What spatial resampling makes of a pixel, from given current
    /// reservoirs.
    pub open spec fn spec_spatial(
        &self,
        cfg: ResamplingConfig,
        camera: Camera,
        shading: Shading,
        curr_reservoirs: Seq<UVec4>,
        idx: int,
    ) -> DiReservoir {
        DirectSpatialResamplingPass::spec_pixel(
            cfg,
            camera,
            self.spec_surface_map(),
            curr_reservoirs,
            shading.current_p_hat@,
            shading.picks@,
            shading.neighbor_p_hat@,
            shading.spatial_randoms@,
            idx,
        )
    }

    /// What resolving makes of a pixel, from given next reservoirs.
    pub open spec fn spec_resolved(
        &self,
        camera: Camera,
        lights: LightsView,
        shading: Shading,
        next_reservoirs: Seq<UVec4>,
        screen_pos: UVec2,
    ) -> Rgb {
        DirectResolvingPass::spec_pixel(
            camera,
            lights,
            TexRgba32::spec_new(&self.direct_gbuffer_d0),
            TexRgba32::spec_new(&self.direct_gbuffer_d1),
            shading.points@,
            shading.sky@,
            next_reservoirs,
            screen_pos,
        )
    }

    /// Whether `after` holds what a frame makes of these buffers: the
    /// current reservoirs are what temporal resampling makes of the
    /// candidates and the previous reservoirs; the next ones are what
    /// spatial resampling makes of the current ones; the resolved lighting
    /// is what resolving makes of the next ones, which also become the
    /// previous reservoirs of the frame to come. Nothing else changes.
    pub open spec fn spec_frame(
        &self,
        cfg: ResamplingConfig,
        camera: Camera,
        lights: LightsView,
        shading: Shading,
        after: CameraBuffers,
    ) -> bool {
        &&& after.direct_gbuffer_d0 == self.direct_gbuffer_d0
        &&& after.direct_gbuffer_d1 == self.direct_gbuffer_d1
        &&& after.prev_surface_map == self.prev_surface_map
        &&& after.reprojection_map == self.reprojection_map
        &&& after.direct_candidates == self.direct_candidates
        &&& after.direct_prev_reservoirs@.len() == self.direct_prev_reservoirs@.len()
        &&& after.direct_curr_reservoirs@.len() == self.direct_curr_reservoirs@.len()
        &&& after.direct_next_reservoirs@.len() == self.direct_next_reservoirs@.len()
        &&& after.direct_samples.spec_size() == self.direct_samples.spec_size()
        &&& forall|idx: int|
            0 <= idx < camera.spec_pixels() && 2 * idx + 1 < self.direct_curr_reservoirs@.len()
                ==> #[trigger] DiReservoir::spec_read(after.direct_curr_reservoirs@, idx)
                == self.spec_temporal(cfg, camera, shading, idx)
        &&& forall|idx: int|
            0 <= idx < camera.spec_pixels() ==> (#[trigger] DiReservoir::spec_read(
                after.direct_curr_reservoirs@,
                idx,
            )).m <= cfg.max_m
        &&& forall|idx: int|
            0 <= idx < camera.spec_pixels() && 2 * idx + 1 < self.direct_next_reservoirs@.len()
                ==> #[trigger] DiReservoir::spec_read(after.direct_next_reservoirs@, idx)
                == self.spec_spatial(cfg, camera, shading, after.direct_curr_reservoirs@, idx)
        &&& forall|idx: int|
            0 <= idx < camera.spec_pixels() && 2 * idx + 1 < self.direct_prev_reservoirs@.len()
                ==> #[trigger] DiReservoir::spec_read(after.direct_prev_reservoirs@, idx)
                == DiReservoir::spec_read(after.direct_next_reservoirs@, idx)
        &&& forall|pos: UVec2|
            camera.spec_contains(pos) && self.direct_samples.spec_contains(pos)
                ==> #[trigger] after.direct_samples.spec_read(pos) == self.spec_resolved(
                camera,
                lights,
                shading,
                after.direct_next_reservoirs@,
                pos,
            ).spec_extend()
        &&& forall|pos: UVec2|
            !camera.spec_contains(pos) ==> #[trigger] after.direct_samples.spec_read(pos)
                == self.direct_samples.spec_read(pos)
    }

    /// Runs one frame's direct lighting on the host: temporal resampling,
    /// spatial resampling and resolving, each complete before the next
    /// begins.
    pub fn run_frame(
        &mut self,
        cfg: &ResamplingConfig,
        camera: &Camera,
        lights: &LightsView,
        shading: &Shading,
        temporal: &DirectTemporalResamplingPass,
        spatial: &DirectSpatialResamplingPass,
        resolving: &DirectResolvingPass,
    )
        ensures
            old(self).spec_frame(*cfg, *camera, *lights, *shading, *final(self)),
    {
        temporal.execute(
            cfg,
            camera,
            SurfaceMap::new(TexRgba32::new(&self.direct_gbuffer_d0)),
            ReprojectionMap::new(TexRgba32::new(&self.reprojection_map)),
            SurfaceMap::new(TexRgba32::new(&self.prev_surface_map)),
            &self.direct_candidates,
            &shading.fresh_p_hat,
            &shading.history_p_hat,
            &shading.temporal_randoms,
            &self.direct_prev_reservoirs,
            &mut self.direct_curr_reservoirs,
        );
        spatial.execute(
            cfg,
            camera,
            SurfaceMap::new(TexRgba32::new(&self.direct_gbuffer_d0)),
            &self.direct_curr_reservoirs,
            &shading.current_p_hat,
            &shading.picks,
            &shading.neighbor_p_hat,
            &shading.spatial_randoms,
            &mut self.direct_next_reservoirs,
        );
        resolving.execute(
            camera,
            lights,
            TexRgba32::new(&self.direct_gbuffer_d0),
            TexRgba32::new(&self.direct_gbuffer_d1),
            &shading.points,
            &shading.sky,
            &self.direct_next_reservoirs,
            &mut self.direct_prev_reservoirs,
            &mut self.direct_samples,
        );
    }

    /// Whether the buffers hold room for every pixel's reservoir.
    pub open spec fn spec_fits(&self, camera: Camera) -> bool {
        &&& 2 * camera.spec_pixels() <= self.direct_prev_reservoirs@.len()
        &&& 2 * camera.spec_pixels() <= self.direct_curr_reservoirs@.len()
        &&& 2 * camera.spec_pixels() <= self.direct_next_reservoirs@.len()
    }

    /// Whether every pixel's history, where there is any, holds the light
    /// `sample` with a weight of one.
    pub open spec fn spec_settled(&self, camera: Camera, sample: DiSample) -> bool {
        forall|idx: int|
            0 <= idx < camera.spec_pixels() ==> {
                let r = #[trigger] DiReservoir::spec_read(self.direct_prev_reservoirs@, idx);
                r.m > 0 ==> r.sample == sample && r.w == 65536
            }
    }

    /// Whether a frame shows one static light, `sample`, to every pixel:
    /// each pixel's fresh reservoir holds candidates of that light alone,
    /// each weighted by the light's target function at the pixel, which is
    /// not zero and is the target function that shading supplies for the
    /// pixel in every role. Counts and sums stay within their types.
    pub open spec fn spec_one_static_light(
        &self,
        cfg: ResamplingConfig,
        camera: Camera,
        shading: Shading,
        sample: DiSample,
    ) -> bool {
        &&& 1 <= cfg.max_m
        &&& cfg.max_m * (SPATIAL_NEIGHBORS + 1) <= u32::MAX
        &&& forall|idx: int|
            0 <= idx < camera.spec_pixels() ==> {
                let fresh = #[trigger] DiReservoir::spec_read(self.direct_candidates@, idx);
                let p = spec_at(shading.fresh_p_hat@, idx);
                &&& p > 0
                &&& spec_at(shading.history_p_hat@, idx) == p
                &&& spec_at(shading.current_p_hat@, idx) == p
                &&& forall|j: int|
                    0 <= j < SPATIAL_NEIGHBORS ==> #[trigger] spec_at_entry(
                        shading.neighbor_p_hat@,
                        idx,
                        SPATIAL_NEIGHBORS as int,
                        j,
                    ) == p
                &&& fresh.sample == sample
                &&& 1 <= fresh.m
                &&& fresh.m + cfg.max_m <= u32::MAX
                &&& fresh.w_sum == p * fresh.m
                &&& p * (fresh.m + cfg.max_m) <= u64::MAX
                &&& p * (cfg.max_m * (SPATIAL_NEIGHBORS + 1)) <= u64::MAX
            }
    }

    /// Without lights a frame leaves every pixel that shows geometry
    /// black, and gives every pixel that shows sky the sky's radiance.
    pub proof fn lemma_frame_without_lights(
        &self,
        cfg: ResamplingConfig,
        camera: Camera,
        lights: LightsView,
        shading: Shading,
        after: CameraBuffers,
        pos: UVec2,
    )
        requires
            self.spec_frame(cfg, camera, lights, shading, after),
            lights@.len() == 0,
            camera.spec_contains(pos),
            self.direct_samples.spec_contains(pos),
        ensures
            ({
                let pixel = spec_load(
                    pos,
                    camera,
                    TexRgba32::spec_new(&self.direct_gbuffer_d0),
                    TexRgba32::spec_new(&self.direct_gbuffer_d1),
                    after.direct_next_reservoirs@,
                );
                let idx = camera.spec_screen_to_idx(pos);
                after.direct_samples.spec_read(pos) == (if pixel.hit.spec_is_some() {
                    Rgb::spec_black()
                } else {
                    DirectResolvingPass::spec_sky(shading.sky@, idx)
                }).spec_extend()
            }),
    {
        let pixel = spec_load(
            pos,
            camera,
            TexRgba32::spec_new(&self.direct_gbuffer_d0),
            TexRgba32::spec_new(&self.direct_gbuffer_d1),
            after.direct_next_reservoirs@,
        );
        let idx = camera.spec_screen_to_idx(pos);
        lemma_no_lights(
            pixel,
            lights@,
            DirectResolvingPass::spec_point(shading.points@, idx),
            DirectResolvingPass::spec_sky(shading.sky@, idx),
        );
        assert(after.direct_samples.spec_read(pos) == self.spec_resolved(
            camera,
            lights,
            shading,
            after.direct_next_reservoirs@,
            pos,
        ).spec_extend());
    }

    /// Under one static light, temporal resampling leaves a pixel the light
    /// with a weight of one.
    proof fn lemma_temporal_static(
        &self,
        cfg: ResamplingConfig,
        camera: Camera,
        shading: Shading,
        sample: DiSample,
        idx: int,
    )
        requires
            self.spec_one_static_light(cfg, camera, shading, sample),
            self.spec_settled(camera, sample),
            0 <= idx < camera.spec_pixels(),
        ensures
            ({
                let r = self.spec_temporal(cfg, camera, shading, idx);
                &&& r.sample == sample
                &&& r.w == 65536
                &&& 1 <= r.m <= cfg.max_m
                &&& r.w_sum == spec_at(shading.fresh_p_hat@, idx) * r.m
            }),
    {
        let fresh = DiReservoir::spec_read(self.direct_candidates@, idx);
        assert(fresh.sample == sample);
        let screen_pos = camera.spec_idx_to_screen(idx);
        let reprojection_map = ReprojectionMap::spec_new(
            TexRgba32::spec_new(&self.reprojection_map),
        );
        let prev_surface_map = SurfaceMap::spec_new(TexRgba32::spec_new(&self.prev_surface_map));
        let found = spec_reproject(
            camera,
            screen_pos,
            reprojection_map,
            prev_surface_map,
            self.direct_prev_reservoirs@,
        );
        let reprojection = crate::resampling::Reprojection::spec_unpack(
            reprojection_map.spec_tex().spec_read(screen_pos),
        );
        if found.valid {
            camera.lemma_screen_to_idx(reprojection.prev_pos, reprojection.prev_pos);
            let from = camera.spec_screen_to_idx(reprojection.prev_pos);
            assert(found.reservoir == DiReservoir::spec_read(self.direct_prev_reservoirs@, from));
        }
        let history = History {
            valid: found.valid,
            surface: found.surface,
            scored: Scored {
                reservoir: found.reservoir,
                p_hat: spec_at(shading.history_p_hat@, idx),
            },
        };
        lemma_static_light_is_stable(
            cfg,
            self.spec_surface_map().spec_get(screen_pos),
            Scored { reservoir: fresh, p_hat: spec_at(shading.fresh_p_hat@, idx) },
            history,
            spec_at(shading.temporal_randoms@, idx),
        );
    }

    /// The neighbours that spatial resampling looks at are settled where
    /// all current reservoirs are.
    proof fn lemma_neighbors_settled(
        cfg: ResamplingConfig,
        camera: Camera,
        surface_map: SurfaceMap,
        curr_reservoirs: Seq<UVec4>,
        picks: Seq<u64>,
        neighbor_p_hat: Seq<u64>,
        randoms: Seq<u64>,
        idx: int,
        count: int,
        sample: DiSample,
        p_hat: u64,
    )
        requires
            0 <= count <= SPATIAL_NEIGHBORS,
            forall|k: int|
                0 <= k < camera.spec_pixels() ==> {
                    let r = #[trigger] DiReservoir::spec_read(curr_reservoirs, k);
                    r.m <= cfg.max_m && r.sample == sample && r.w == 65536
                },
            forall|j: int|
                0 <= j < SPATIAL_NEIGHBORS ==> #[trigger] spec_at_entry(
                    neighbor_p_hat,
                    idx,
                    SPATIAL_NEIGHBORS as int,
                    j,
                ) == p_hat,
        ensures
            ({
                let neighbors = DirectSpatialResamplingPass::spec_neighbors(
                    cfg,
                    camera,
                    surface_map,
                    curr_reservoirs,
                    picks,
                    neighbor_p_hat,
                    randoms,
                    idx,
                    count,
                );
                &&& neighbors.len() <= count
                &&& forall|j: int|
                    0 <= j < neighbors.len() ==> spec_settled_neighbor(
                        cfg,
                        sample,
                        p_hat,
                        #[trigger] neighbors[j],
                    )
            }),
        decreases count,
    {
        if count > 0 {
            Self::lemma_neighbors_settled(
                cfg,
                camera,
                surface_map,
                curr_reservoirs,
                picks,
                neighbor_p_hat,
                randoms,
                idx,
                count - 1,
                sample,
                p_hat,
            );
            let earlier = DirectSpatialResamplingPass::spec_neighbors(
                cfg,
                camera,
                surface_map,
                curr_reservoirs,
                picks,
                neighbor_p_hat,
                randoms,
                idx,
                count - 1,
            );
            let neighbors = DirectSpatialResamplingPass::spec_neighbors(
                cfg,
                camera,
                surface_map,
                curr_reservoirs,
                picks,
                neighbor_p_hat,
                randoms,
                idx,
                count,
            );
            let screen_pos = camera.spec_idx_to_screen(idx);
            let pick = DirectSpatialResamplingPass::spec_pick(
                spec_at_entry(picks, idx, SPATIAL_NEIGHBORS as int, count - 1),
            );
            let near = UVec2 {
                x: spec_nearby(screen_pos.x, cfg.spatial_radius, pick.x) as u32,
                y: spec_nearby(screen_pos.y, cfg.spatial_radius, pick.y) as u32,
            };
            assert(spec_at_entry(neighbor_p_hat, idx, SPATIAL_NEIGHBORS as int, count - 1)
                == p_hat);
            match spec_gather(camera, near, surface_map, curr_reservoirs) {
                Some(found) => {
                    camera.lemma_screen_to_idx(near, near);
                    let from = camera.spec_screen_to_idx(near);
                    assert(found.2 == DiReservoir::spec_read(curr_reservoirs, from));
                    let last = neighbors[neighbors.len() - 1];
                    assert(spec_settled_neighbor(cfg, sample, p_hat, last));
                    assert forall|j: int| 0 <= j < neighbors.len() implies spec_settled_neighbor(
                        cfg,
                        sample,
                        p_hat,
                        #[trigger] neighbors[j],
                    ) by {
                        if j < earlier.len() {
                            assert(neighbors[j] == earlier[j]);
                        }
                    }
                },
                None => {},
            }
        }
    }

    /// Under one static light a frame keeps every pixel settled on the
    /// light, and resolves every pixel that shows geometry to exactly what
    /// the light sends from the pixel's hit: its contribution as a diffuse
    /// surface receives it. Reservoirs, history and random numbers do not
    /// show in the image, so the image is the same frame after frame.
    pub proof fn lemma_frame_under_one_static_light(
        &self,
        cfg: ResamplingConfig,
        camera: Camera,
        lights: LightsView,
        shading: Shading,
        after: CameraBuffers,
        sample: DiSample,
    )
        requires
            self.spec_frame(cfg, camera, lights, shading, after),
            self.spec_fits(camera),
            self.spec_one_static_light(cfg, camera, shading, sample),
            self.spec_settled(camera, sample),
        ensures
            after.spec_settled(camera, sample),
            forall|idx: int|
                0 <= idx < camera.spec_pixels() ==> (#[trigger] DiReservoir::spec_read(
                    after.direct_prev_reservoirs@,
                    idx,
                )).w == 65536,
            forall|pos: UVec2|
                camera.spec_contains(pos) && self.direct_samples.spec_contains(pos) && spec_load(
                    pos,
                    camera,
                    TexRgba32::spec_new(&self.direct_gbuffer_d0),
                    TexRgba32::spec_new(&self.direct_gbuffer_d1),
                    after.direct_next_reservoirs@,
                ).hit.spec_is_some() ==> #[trigger] after.direct_samples.spec_read(pos) == (Pixel {
                    reservoir: DiReservoir { sample, ..DiReservoir::spec_empty() },
                    ..spec_load(
                        pos,
                        camera,
                        TexRgba32::spec_new(&self.direct_gbuffer_d0),
                        TexRgba32::spec_new(&self.direct_gbuffer_d1),
                        after.direct_next_reservoirs@,
                    )
                }).spec_radiance(
                    lights@,
                    DirectResolvingPass::spec_point(
                        shading.points@,
                        camera.spec_screen_to_idx(pos),
                    ),
                ).spec_extend(),
    {
        let pixels = camera.spec_pixels();
        let curr = after.direct_curr_reservoirs@;
        let next = after.direct_next_reservoirs@;
        assert forall|k: int| 0 <= k < pixels implies ({
            let r = #[trigger] DiReservoir::spec_read(curr, k);
            &&& r.sample == sample
            &&& r.w == 65536
            &&& 1 <= r.m <= cfg.max_m
            &&& r.w_sum == spec_at(shading.fresh_p_hat@, k) * r.m
        }) by {
            self.lemma_temporal_static(cfg, camera, shading, sample, k);
            assert(DiReservoir::spec_read(curr, k) == self.spec_temporal(cfg, camera, shading, k));
        }
        assert forall|k: int| 0 <= k < pixels implies ({
            let r = #[trigger] DiReservoir::spec_read(next, k);
            r.sample == sample && r.w == 65536
        }) by {
            let fresh = DiReservoir::spec_read(self.direct_candidates@, k);
            let p = spec_at(shading.fresh_p_hat@, k);
            assert(fresh.sample == sample);
            let screen_pos = camera.spec_idx_to_screen(k);
            let current = Scored {
                reservoir: DiReservoir::spec_read(curr, k),
                p_hat: spec_at(shading.current_p_hat@, k),
            };
            Self::lemma_neighbors_settled(
                cfg,
                camera,
                self.spec_surface_map(),
                curr,
                shading.picks@,
                shading.neighbor_p_hat@,
                shading.spatial_randoms@,
                k,
                SPATIAL_NEIGHBORS as int,
                sample,
                p,
            );
            let neighbors = DirectSpatialResamplingPass::spec_neighbors(
                cfg,
                camera,
                self.spec_surface_map(),
                curr,
                shading.picks@,
                shading.neighbor_p_hat@,
                shading.spatial_randoms@,
                k,
                SPATIAL_NEIGHBORS as int,
            );
            let cap = cfg.max_m as int;
            let len = neighbors.len() as int;
            assert(cap * (len + 1) <= cap * (SPATIAL_NEIGHBORS + 1)) by (nonlinear_arith)
                requires
                    0 <= len <= SPATIAL_NEIGHBORS,
                    cap >= 0,
            ;
            assert(p * (cap * (len + 1)) <= p * (cap * (SPATIAL_NEIGHBORS + 1)))
                by (nonlinear_arith)
                requires
                    cap * (len + 1) <= cap * (SPATIAL_NEIGHBORS + 1),
                    p >= 0,
            ;
            lemma_static_light_among_neighbors(
                cfg,
                screen_pos,
                self.spec_surface_map().spec_get(screen_pos),
                current,
                neighbors,
            );
            assert(DiReservoir::spec_read(next, k) == self.spec_spatial(
                cfg,
                camera,
                shading,
                curr,
                k,
            ));
        }
        assert forall|pos: UVec2|
            camera.spec_contains(pos) && self.direct_samples.spec_contains(pos) && spec_load(
                pos,
                camera,
                TexRgba32::spec_new(&self.direct_gbuffer_d0),
                TexRgba32::spec_new(&self.direct_gbuffer_d1),
                next,
            ).hit.spec_is_some() implies #[trigger] after.direct_samples.spec_read(pos) == (Pixel {
            reservoir: DiReservoir { sample, ..DiReservoir::spec_empty() },
            ..spec_load(
                pos,
                camera,
                TexRgba32::spec_new(&self.direct_gbuffer_d0),
                TexRgba32::spec_new(&self.direct_gbuffer_d1),
                next,
            )
        }).spec_radiance(
            lights@,
            DirectResolvingPass::spec_point(shading.points@, camera.spec_screen_to_idx(pos)),
        ).spec_extend() by {
            camera.lemma_screen_to_idx(pos, pos);
            let k = camera.spec_screen_to_idx(pos);
            let pixel = spec_load(
                pos,
                camera,
                TexRgba32::spec_new(&self.direct_gbuffer_d0),
                TexRgba32::spec_new(&self.direct_gbuffer_d1),
                next,
            );
            assert(pixel.reservoir == DiReservoir::spec_read(next, k));
            let point = DirectResolvingPass::spec_point(shading.points@, k);
            Pixel::lemma_color(pixel, pixel.spec_radiance(lights@, point));
            assert(after.direct_samples.spec_read(pos) == self.spec_resolved(
                camera,
                lights,
                shading,
                next,
                pos,
            ).spec_extend());
        }
    }
}

} // verus!
