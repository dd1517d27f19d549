//! The pass that merges each pixel's reservoir with those of its neighbours.

use vstd::prelude::*;
use crate::camera::Camera;
use crate::camera_controller::passes::{
    at, at_entry, spec_at, spec_at_entry, spec_group, Access, Binding, CameraComputePass,
    Dispatch, Resource, Shader,
};
use crate::camera_controller::{CameraController, PassParams};
use crate::resampling::{
    gather, lemma_spatial_no_op, spatial_resample, spec_gather, spec_nearby, spec_spatial,
    Neighbor, ResamplingConfig, Scored, SPATIAL_NEIGHBORS,
};
use crate::reservoir::DiReservoir;
use crate::surface::SurfaceMap;
use crate::uvec::{UVec2, UVec4};

verus! {

/// Shares reservoirs among neighbouring pixels of a frame.
#[derive(Debug)]
pub struct DirectSpatialResamplingPass {
    pass: CameraComputePass,
}

impl DirectSpatialResamplingPass {
    /// What the pass binds: the scene, then the camera's own resources. It
    /// reads the reservoirs that temporal resampling left and writes the
    /// merged ones to a buffer of their own.
    pub open spec fn spec_layout() -> Seq<Binding> {
        spec_group(
            0,
            seq![
                (Resource::Triangles, Access::Readable),
                (Resource::Bvh, Access::Readable),
                (Resource::Materials, Access::Readable),
                (Resource::Lights, Access::Readable),
                (Resource::Images, Access::Atlas),
            ],
        ) + spec_group(
            1,
            seq![
                (Resource::Camera, Access::Readable),
                (Resource::SurfaceMap, Access::Readable),
                (Resource::DirectGbufferD0, Access::Readable),
                (Resource::DirectGbufferD1, Access::Readable),
                (Resource::DirectCurrReservoirs, Access::Readable),
                (Resource::DirectNextReservoirs, Access::Writable),
            ],
        )
    }

    pub closed spec fn spec_pass(&self) -> CameraComputePass {
        self.pass
    }

    /// The pass with its bind groups laid out.
    pub fn new() -> (r: Self)
        ensures
            r.spec_pass().bindings@ == Self::spec_layout(),
            r.spec_pass().shader == Shader::DirectSpatialResampling,
            r.spec_pass().label == "direct_spatial_resampling",
    {
        let pass = CameraComputePass::builder("direct_spatial_resampling").bind(
            vec![
                Resource::Triangles.bind_readable(),
                Resource::Bvh.bind_readable(),
                Resource::Materials.bind_readable(),
                Resource::Lights.bind_readable(),
                Resource::Images.bind_atlas(),
            ],
        ).bind(
            vec![
                Resource::Camera.bind_readable(),
                Resource::SurfaceMap.bind_readable(),
                Resource::DirectGbufferD0.bind_readable(),
                Resource::DirectGbufferD1.bind_readable(),
                Resource::DirectCurrReservoirs.bind_readable(),
                Resource::DirectNextReservoirs.bind_writable(),
            ],
        ).build(Shader::DirectSpatialResampling);
        Self { pass }
    }

    /// The pass's bindings, in binding order.
    pub fn bindings(&self) -> (r: &Vec<Binding>)
        ensures
            r@ == self.spec_pass().bindings@,
    {
        &self.pass.bindings
    }

    /// The dispatch for given parameters: as many 8x8 tiles as cover the
    /// viewport, so that every pixel is worked on.
    pub fn dispatch(&self, camera: &CameraController, params: PassParams) -> (r: Dispatch)
        requires
            camera.camera.viewport.size.x <= u32::MAX - 7,
            camera.camera.viewport.size.y <= u32::MAX - 7,
        ensures
            r == (Dispatch {
                shader: self.spec_pass().shader,
                size: camera.camera.viewport.size.spec_covering_warps(),
                params,
            }),
    {
        // This pass uses 8x8 warps:
        let size = camera.camera.viewport.size.covering_warps();
        self.pass.run(size, params)
    }

    /// The dispatch for this frame, with a fresh random seed.
    pub fn run(&self, camera: &CameraController) -> (r: Dispatch)
        requires
            camera.camera.viewport.size.x <= u32::MAX - 7,
            camera.camera.viewport.size.y <= u32::MAX - 7,
        ensures
            r.shader == self.spec_pass().shader,
            r.size == camera.camera.viewport.size.spec_covering_warps(),
            r.params.frame == camera.frame,
    {
        self.dispatch(camera, camera.pass_params())
    }

    /// The two random numbers, one per axis, that a pick holds in its low
    /// and its high half.
    pub open spec fn spec_pick(pick: u64) -> UVec2 {
        UVec2 { x: (pick % 0x1_0000_0000) as u32, y: (pick / 0x1_0000_0000) as u32 }
    }

    /// The first `count` neighbours that the pass looks at for the pixel of
    /// slot `idx`, without those that fall outside the viewport. Each is
    /// picked within the search radius by its pick; the target function of
    /// its sample at the pixel and the random number that decides about its
    /// sample are read from buffers of one number per pixel and neighbour.
    pub open spec fn spec_neighbors(
        cfg: ResamplingConfig,
        camera: Camera,
        surface_map: SurfaceMap,
        curr_reservoirs: Seq<UVec4>,
        picks: Seq<u64>,
        neighbor_p_hat: Seq<u64>,
        randoms: Seq<u64>,
        idx: int,
        count: int,
    ) -> Seq<Neighbor>
        decreases count,
    {
        if count <= 0 {
            Seq::empty()
        } else {
            let earlier = Self::spec_neighbors(
                cfg,
                camera,
                surface_map,
                curr_reservoirs,
                picks,
                neighbor_p_hat,
                randoms,
                idx,
                count - 1,
            );
            let screen_pos = camera.spec_idx_to_screen(idx);
            let pick = Self::spec_pick(spec_at_entry(picks, idx, SPATIAL_NEIGHBORS as int, count - 1));
            let near = UVec2 {
                x: spec_nearby(screen_pos.x, cfg.spatial_radius, pick.x) as u32,
                y: spec_nearby(screen_pos.y, cfg.spatial_radius, pick.y) as u32,
            };
            match spec_gather(camera, near, surface_map, curr_reservoirs) {
                Some(found) => earlier.push(
                    Neighbor {
                        screen_pos: found.0,
                        surface: found.1,
                        scored: Scored {
                            reservoir: found.2,
                            p_hat: spec_at_entry(neighbor_p_hat, idx, SPATIAL_NEIGHBORS as int, count - 1),
                        },
                        random: spec_at_entry(randoms, idx, SPATIAL_NEIGHBORS as int, count - 1),
                    },
                ),
                None => earlier,
            }
        }
    }

    /// What the pass writes for the pixel of slot `idx`: the pixel's
    /// current reservoir merged with those of its neighbours.
    pub open spec fn spec_pixel(
        cfg: ResamplingConfig,
        camera: Camera,
        surface_map: SurfaceMap,
        curr_reservoirs: Seq<UVec4>,
        p_hat: Seq<u64>,
        picks: Seq<u64>,
        neighbor_p_hat: Seq<u64>,
        randoms: Seq<u64>,
        idx: int,
    ) -> DiReservoir {
        let screen_pos = camera.spec_idx_to_screen(idx);
        spec_spatial(
            cfg,
            screen_pos,
            surface_map.spec_get(screen_pos),
            Scored {
                reservoir: DiReservoir::spec_read(curr_reservoirs, idx),
                p_hat: spec_at(p_hat, idx),
            },
            Self::spec_neighbors(
                cfg,
                camera,
                surface_map,
                curr_reservoirs,
                picks,
                neighbor_p_hat,
                randoms,
                idx,
                SPATIAL_NEIGHBORS as int,
            ),
        )
    }

    /// Where none of the neighbours that the pass looks at for a pixel has
    /// a surface similar enough to the pixel's own, the pass hands the
    /// pixel's reservoir on as it is.
    pub proof fn lemma_pixel_without_similar_neighbors(
        cfg: ResamplingConfig,
        camera: Camera,
        surface_map: SurfaceMap,
        curr_reservoirs: Seq<UVec4>,
        p_hat: Seq<u64>,
        picks: Seq<u64>,
        neighbor_p_hat: Seq<u64>,
        randoms: Seq<u64>,
        idx: int,
    )
        requires
            ({
                let neighbors = Self::spec_neighbors(
                    cfg,
                    camera,
                    surface_map,
                    curr_reservoirs,
                    picks,
                    neighbor_p_hat,
                    randoms,
                    idx,
                    SPATIAL_NEIGHBORS as int,
                );
                forall|j: int|
                    0 <= j < neighbors.len() ==> !cfg.spec_reusable(
                        surface_map.spec_get(camera.spec_idx_to_screen(idx)),
                        (#[trigger] neighbors[j]).surface,
                    )
            }),
        ensures
            Self::spec_pixel(
                cfg,
                camera,
                surface_map,
                curr_reservoirs,
                p_hat,
                picks,
                neighbor_p_hat,
                randoms,
                idx,
            ) == DiReservoir::spec_read(curr_reservoirs, idx),
    {
        let screen_pos = camera.spec_idx_to_screen(idx);
        lemma_spatial_no_op(
            cfg,
            screen_pos,
            surface_map.spec_get(screen_pos),
            Scored {
                reservoir: DiReservoir::spec_read(curr_reservoirs, idx),
                p_hat: spec_at(p_hat, idx),
            },
            Self::spec_neighbors(
                cfg,
                camera,
                surface_map,
                curr_reservoirs,
                picks,
                neighbor_p_hat,
                randoms,
                idx,
                SPATIAL_NEIGHBORS as int,
            ),
        );
    }

    /// Runs the pass on the host, pixel by pixel. Every pixel of the
    /// viewport gets its merged reservoir, as far as the buffer of next
    /// reservoirs has a slot for it, and slots beyond the viewport's pixels
    /// keep what they held. With a search radius of zero every pixel's
    /// reservoir is handed on as it is. No pixel reads what another writes:
    /// the pass reads the current reservoirs and writes the next ones.
    pub fn execute(
        &self,
        cfg: &ResamplingConfig,
        camera: &Camera,
        surface_map: SurfaceMap,
        curr_reservoirs: &Vec<UVec4>,
        p_hat: &Vec<u64>,
        picks: &Vec<u64>,
        neighbor_p_hat: &Vec<u64>,
        randoms: &Vec<u64>,
        next_reservoirs: &mut Vec<UVec4>,
    )
        ensures
            final(next_reservoirs)@.len() == old(next_reservoirs)@.len(),
            forall|idx: int|
                0 <= idx < camera.spec_pixels() && 2 * idx + 1 < old(next_reservoirs)@.len()
                    ==> #[trigger] DiReservoir::spec_read(final(next_reservoirs)@, idx)
                    == Self::spec_pixel(
                    *cfg,
                    *camera,
                    surface_map,
                    curr_reservoirs@,
                    p_hat@,
                    picks@,
                    neighbor_p_hat@,
                    randoms@,
                    idx,
                ),
            cfg.spatial_radius == 0 ==> forall|idx: int|
                0 <= idx < camera.spec_pixels() && 2 * idx + 1 < old(next_reservoirs)@.len()
                    ==> #[trigger] DiReservoir::spec_read(final(next_reservoirs)@, idx)
                    == DiReservoir::spec_read(curr_reservoirs@, idx),
            forall|idx: int|
                idx >= camera.spec_pixels() ==> #[trigger] DiReservoir::spec_read(
                    final(next_reservoirs)@,
                    idx,
                ) == DiReservoir::spec_read(old(next_reservoirs)@, idx),
    {
        let pixels: u64 = camera.pixels();
        let mut idx: u64 = 0;
        while idx < pixels
            invariant
                idx <= pixels,
                pixels == camera.spec_pixels(),
                next_reservoirs@.len() == old(next_reservoirs)@.len(),
                forall|k: int|
                    0 <= k < idx && 2 * k + 1 < next_reservoirs@.len()
                        ==> #[trigger] DiReservoir::spec_read(next_reservoirs@, k)
                        == Self::spec_pixel(
                        *cfg,
                        *camera,
                        surface_map,
                        curr_reservoirs@,
                        p_hat@,
                        picks@,
                        neighbor_p_hat@,
                        randoms@,
                        k,
                    ),
                cfg.spatial_radius == 0 ==> forall|k: int|
                    0 <= k < idx && 2 * k + 1 < next_reservoirs@.len()
                        ==> #[trigger] DiReservoir::spec_read(next_reservoirs@, k)
                        == DiReservoir::spec_read(curr_reservoirs@, k),
                forall|k: int|
                    k >= idx ==> #[trigger] DiReservoir::spec_read(next_reservoirs@, k)
                        == DiReservoir::spec_read(old(next_reservoirs)@, k),
            decreases pixels - idx,
        {
            let screen_pos = camera.idx_to_screen(idx);
            let surface = surface_map.get(screen_pos);
            let current = Scored {
                reservoir: DiReservoir::read(curr_reservoirs, idx),
                p_hat: at(p_hat, idx),
            };
            let mut neighbors: Vec<Neighbor> = Vec::new();
            let mut j: u32 = 0;
            while j < SPATIAL_NEIGHBORS
                invariant
                    j <= SPATIAL_NEIGHBORS,
                    idx < pixels,
                    pixels == camera.spec_pixels(),
                    screen_pos == camera.spec_idx_to_screen(idx as int),
                    neighbors@ == Self::spec_neighbors(
                        *cfg,
                        *camera,
                        surface_map,
                        curr_reservoirs@,
                        picks@,
                        neighbor_p_hat@,
                        randoms@,
                        idx as int,
                        j as int,
                    ),
                decreases SPATIAL_NEIGHBORS - j,
            {
                let pick: u64 = at_entry(picks, idx, SPATIAL_NEIGHBORS, j);
                let random = UVec2 {
                    x: (pick % 0x1_0000_0000) as u32,
                    y: (pick / 0x1_0000_0000) as u32,
                };
                match gather(cfg, camera, screen_pos, random, surface_map, curr_reservoirs) {
                    Some(found) => {
                        neighbors.push(
                            Neighbor {
                                screen_pos: found.0,
                                surface: found.1,
                                scored: Scored {
                                    reservoir: found.2,
                                    p_hat: at_entry(neighbor_p_hat, idx, SPATIAL_NEIGHBORS, j),
                                },
                                random: at_entry(randoms, idx, SPATIAL_NEIGHBORS, j),
                            },
                        );
                    },
                    None => {},
                }
                j = j + 1;
            }
            let r = spatial_resample(cfg, screen_pos, &surface, &current, &neighbors);
            let ghost before = next_reservoirs@;
            r.write(next_reservoirs, idx);
            proof {
                assert forall|k: int| 0 <= k implies #[trigger] DiReservoir::spec_read(
                    next_reservoirs@,
                    k,
                ) == (if k == idx && 2 * k + 1 < before.len() {
                    r
                } else {
                    DiReservoir::spec_read(before, k)
                }) by {
                    DiReservoir::lemma_read_write(r, before, idx as int, k);
                }
            }
            idx = idx + 1;
        }
    }
}

} // verus!
