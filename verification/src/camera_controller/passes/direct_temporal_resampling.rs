//! The pass that merges each pixel's fresh candidates with its history.

use vstd::prelude::*;
use crate::camera::Camera;
use crate::camera_controller::passes::{
    at, spec_at, spec_group, Access, Binding, CameraComputePass, Dispatch, Resource, Shader,
};
use crate::camera_controller::{CameraController, PassParams};
use crate::resampling::{
    reproject, spec_reproject, spec_temporal, temporal_resample, History, ReprojectionMap,
    ResamplingConfig, Scored,
};
use crate::reservoir::DiReservoir;
use crate::surface::SurfaceMap;
use crate::uvec::UVec4;

verus! {

/// Carries reservoirs over from the previous frame.
#[derive(Debug)]
pub struct DirectTemporalResamplingPass {
    pass: CameraComputePass,
}

impl DirectTemporalResamplingPass {
    /// What the pass binds: the scene, then the camera's own resources. It
    /// reads this frame's candidates and the previous frame's reservoirs and
    /// writes the current ones.
    pub open spec fn spec_layout() -> Seq<Binding> {
        spec_group(
            0,
            seq![
                (Resource::Triangles, Access::Readable),
                (Resource::Bvh, Access::Readable),
                (Resource::Materials, Access::Readable),
                (Resource::Lights, Access::Readable),
                (Resource::Images, Access::Atlas),
            ],
        ) + spec_group(
            1,
            seq![
                (Resource::Camera, Access::Readable),
                (Resource::ReprojectionMap, Access::Readable),
                (Resource::DirectGbufferD0, Access::Readable),
                (Resource::DirectGbufferD1, Access::Readable),
                (Resource::DirectCandidates, Access::Readable),
                (Resource::DirectPrevReservoirs, Access::Readable),
                (Resource::DirectCurrReservoirs, Access::Writable),
            ],
        )
    }

    pub closed spec fn spec_pass(&self) -> CameraComputePass {
        self.pass
    }

    /// The pass with its bind groups laid out.
    pub fn new() -> (r: Self)
        ensures
            r.spec_pass().bindings@ == Self::spec_layout(),
            r.spec_pass().shader == Shader::DirectTemporalResampling,
            r.spec_pass().label == "direct_temporal_resampling",
    {
        let pass = CameraComputePass::builder("direct_temporal_resampling").bind(
            vec![
                Resource::Triangles.bind_readable(),
                Resource::Bvh.bind_readable(),
                Resource::Materials.bind_readable(),
                Resource::Lights.bind_readable(),
                Resource::Images.bind_atlas(),
            ],
        ).bind(
            vec![
                Resource::Camera.bind_readable(),
                Resource::ReprojectionMap.bind_readable(),
                Resource::DirectGbufferD0.bind_readable(),
                Resource::DirectGbufferD1.bind_readable(),
                Resource::DirectCandidates.bind_readable(),
                Resource::DirectPrevReservoirs.bind_readable(),
                Resource::DirectCurrReservoirs.bind_writable(),
            ],
        ).build(Shader::DirectTemporalResampling);
        Self { pass }
    }

    /// The pass's bindings, in binding order.
    pub fn bindings(&self) -> (r: &Vec<Binding>)
        ensures
            r@ == self.spec_pass().bindings@,
    {
        &self.pass.bindings
    }

    /// The dispatch for given parameters: as many 8x8 tiles as cover the
    /// viewport, so that every pixel is worked on.
    pub fn dispatch(&self, camera: &CameraController, params: PassParams) -> (r: Dispatch)
        requires
            camera.camera.viewport.size.x <= u32::MAX - 7,
            camera.camera.viewport.size.y <= u32::MAX - 7,
        ensures
            r == (Dispatch {
                shader: self.spec_pass().shader,
                size: camera.camera.viewport.size.spec_covering_warps(),
                params,
            }),
    {
        // This pass uses 8x8 warps:
        let size = camera.camera.viewport.size.covering_warps();
        self.pass.run(size, params)
    }

    /// The dispatch for this frame, with a fresh random seed.
    pub fn run(&self, camera: &CameraController) -> (r: Dispatch)
        requires
            camera.camera.viewport.size.x <= u32::MAX - 7,
            camera.camera.viewport.size.y <= u32::MAX - 7,
        ensures
            r.shader == self.spec_pass().shader,
            r.size == camera.camera.viewport.size.spec_covering_warps(),
            r.params.frame == camera.frame,
    {
        self.dispatch(camera, camera.pass_params())
    }

    /// What the pass writes for the pixel of slot `idx`: the pixel's fresh
    /// reservoir merged with what the reprojection map finds of its
    /// history. The target functions and the random number of the pixel are
    /// read from buffers of one number per pixel.
    pub open spec fn spec_pixel(
        cfg: ResamplingConfig,
        camera: Camera,
        surface_map: SurfaceMap,
        reprojection_map: ReprojectionMap,
        prev_surface_map: SurfaceMap,
        candidates: Seq<UVec4>,
        fresh_p_hat: Seq<u64>,
        history_p_hat: Seq<u64>,
        randoms: Seq<u64>,
        prev_reservoirs: Seq<UVec4>,
        idx: int,
    ) -> DiReservoir {
        let screen_pos = camera.spec_idx_to_screen(idx);
        let found = spec_reproject(
            camera,
            screen_pos,
            reprojection_map,
            prev_surface_map,
            prev_reservoirs,
        );
        spec_temporal(
            cfg,
            surface_map.spec_get(screen_pos),
            Scored {
                reservoir: DiReservoir::spec_read(candidates, idx),
                p_hat: spec_at(fresh_p_hat, idx),
            },
            History {
                valid: found.valid,
                surface: found.surface,
                scored: Scored { reservoir: found.reservoir, p_hat: spec_at(history_p_hat, idx) },
            },
            spec_at(randoms, idx),
        )
    }

    /// Runs the pass on the host, pixel by pixel. Every pixel of the
    /// viewport gets its reservoir, as far as the buffer of current
    /// reservoirs has a slot for it; no pixel's reservoir stands for more
    /// candidates than the cap allows; and slots beyond the viewport's
    /// pixels keep what they held. No pixel reads what another writes: the
    /// pass reads the previous reservoirs and writes the current ones.
    pub fn execute(
        &self,
        cfg: &ResamplingConfig,
        camera: &Camera,
        surface_map: SurfaceMap,
        reprojection_map: ReprojectionMap,
        prev_surface_map: SurfaceMap,
        candidates: &Vec<UVec4>,
        fresh_p_hat: &Vec<u64>,
        history_p_hat: &Vec<u64>,
        randoms: &Vec<u64>,
        prev_reservoirs: &Vec<UVec4>,
        curr_reservoirs: &mut Vec<UVec4>,
    )
        ensures
            final(curr_reservoirs)@.len() == old(curr_reservoirs)@.len(),
            forall|idx: int|
                0 <= idx < camera.spec_pixels() && 2 * idx + 1 < old(curr_reservoirs)@.len()
                    ==> #[trigger] DiReservoir::spec_read(final(curr_reservoirs)@, idx)
                    == Self::spec_pixel(
                    *cfg,
                    *camera,
                    surface_map,
                    reprojection_map,
                    prev_surface_map,
                    candidates@,
                    fresh_p_hat@,
                    history_p_hat@,
                    randoms@,
                    prev_reservoirs@,
                    idx,
                ),
            forall|idx: int|
                0 <= idx < camera.spec_pixels() ==> (#[trigger] DiReservoir::spec_read(
                    final(curr_reservoirs)@,
                    idx,
                )).m <= cfg.max_m,
            forall|idx: int|
                idx >= camera.spec_pixels() ==> #[trigger] DiReservoir::spec_read(
                    final(curr_reservoirs)@,
                    idx,
                ) == DiReservoir::spec_read(old(curr_reservoirs)@, idx),
    {
        let pixels: u64 = camera.pixels();
        let mut idx: u64 = 0;
        while idx < pixels
            invariant
                idx <= pixels,
                pixels == camera.spec_pixels(),
                curr_reservoirs@.len() == old(curr_reservoirs)@.len(),
                forall|k: int|
                    0 <= k < idx && 2 * k + 1 < curr_reservoirs@.len()
                        ==> #[trigger] DiReservoir::spec_read(curr_reservoirs@, k)
                        == Self::spec_pixel(
                        *cfg,
                        *camera,
                        surface_map,
                        reprojection_map,
                        prev_surface_map,
                        candidates@,
                        fresh_p_hat@,
                        history_p_hat@,
                        randoms@,
                        prev_reservoirs@,
                        k,
                    ),
                forall|k: int|
                    0 <= k < idx ==> (#[trigger] DiReservoir::spec_read(curr_reservoirs@, k)).m
                        <= cfg.max_m,
                forall|k: int|
                    k >= idx ==> #[trigger] DiReservoir::spec_read(curr_reservoirs@, k)
                        == DiReservoir::spec_read(old(curr_reservoirs)@, k),
            decreases pixels - idx,
        {
            let screen_pos = camera.idx_to_screen(idx);
            let found = reproject(
                camera,
                screen_pos,
                reprojection_map,
                prev_surface_map,
                prev_reservoirs,
            );
            let surface = surface_map.get(screen_pos);
            let fresh = Scored {
                reservoir: DiReservoir::read(candidates, idx),
                p_hat: at(fresh_p_hat, idx),
            };
            let history = History {
                valid: found.valid,
                surface: found.surface,
                scored: Scored { reservoir: found.reservoir, p_hat: at(history_p_hat, idx) },
            };
            let r = temporal_resample(cfg, &surface, &fresh, &history, at(randoms, idx));
            let ghost before = curr_reservoirs@;
            r.write(curr_reservoirs, idx);
            proof {
                assert forall|k: int| 0 <= k implies #[trigger] DiReservoir::spec_read(
                    curr_reservoirs@,
                    k,
                ) == (if k == idx && 2 * k + 1 < before.len() {
                    r
                } else {
                    DiReservoir::spec_read(before, k)
                }) by {
                    DiReservoir::lemma_read_write(r, before, idx as int, k);
                }
                assert forall|k: int| k < 0 implies #[trigger] DiReservoir::spec_read(
                    curr_reservoirs@,
                    k,
                ) == DiReservoir::spec_read(before, k) by {}
            }
            idx = idx + 1;
        }
    }
}

} // verus!
