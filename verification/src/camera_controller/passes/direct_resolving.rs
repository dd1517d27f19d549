//! The pass that turns each pixel's final reservoir into radiance.

use vstd::prelude::*;
use crate::camera::Camera;
use crate::camera_controller::passes::{
    spec_group, Access, Binding, CameraComputePass, Dispatch, Resource, Shader,
};
use crate::camera_controller::{CameraController, PassParams};
use crate::color::Rgb;
use crate::image::{Image, TexRgba32};
use crate::light::LightsView;
use crate::normal::Vec3;
use crate::reservoir::DiReservoir;
use crate::resolving::{lemma_no_lights, load, resolve, spec_load};
use crate::uvec::{UVec2, UVec4};

verus! {

/// Resolves the reservoirs of a frame into the direct lighting of each pixel.
#[derive(Debug)]
pub struct DirectResolvingPass {
    pass: CameraComputePass,
}

impl DirectResolvingPass {
    /// What the pass binds: lights and world, then the camera's own
    /// resources. It reads the reservoirs that spatial resampling left and
    /// writes them back as the next frame's history.
    pub open spec fn spec_layout() -> Seq<Binding> {
        spec_group(
            0,
            seq![
                (Resource::Lights, Access::Readable),
                (Resource::World, Access::Readable),
            ],
        ) + spec_group(
            1,
            seq![
                (Resource::Camera, Access::Readable),
                (Resource::AtmosphereTransmittanceLut, Access::Sampled),
                (Resource::AtmosphereSkyLut, Access::Sampled),
                (Resource::DirectGbufferD0, Access::Readable),
                (Resource::DirectGbufferD1, Access::Readable),
                (Resource::DirectNextReservoirs, Access::Readable),
                (Resource::DirectPrevReservoirs, Access::Writable),
                (Resource::DirectSamples, Access::Writable),
            ],
        )
    }

    pub closed spec fn spec_pass(&self) -> CameraComputePass {
        self.pass
    }

    /// The pass with its bind groups laid out.
    pub fn new() -> (r: Self)
        ensures
            r.spec_pass().bindings@ == Self::spec_layout(),
            r.spec_pass().shader == Shader::DirectResolving,
            r.spec_pass().label == "direct_resolving",
    {
        let pass = CameraComputePass::builder("direct_resolving").bind(
            vec![
                Resource::Lights.bind_readable(),
                Resource::World.bind_readable(),
            ],
        ).bind(
            vec![
                Resource::Camera.bind_readable(),
                Resource::AtmosphereTransmittanceLut.bind_sampled(),
                Resource::AtmosphereSkyLut.bind_sampled(),
                Resource::DirectGbufferD0.bind_readable(),
                Resource::DirectGbufferD1.bind_readable(),
                Resource::DirectNextReservoirs.bind_readable(),
                Resource::DirectPrevReservoirs.bind_writable(),
                Resource::DirectSamples.bind_writable(),
            ],
        ).build(Shader::DirectResolving);
        Self { pass }
    }

    /// The pass's bindings, in binding order.
    pub fn bindings(&self) -> (r: &Vec<Binding>)
        ensures
            r@ == self.spec_pass().bindings@,
    {
        &self.pass.bindings
    }

    /// The dispatch for given parameters: as many 8x8 tiles as cover the
    /// viewport, so that every pixel is worked on.
    pub fn dispatch(&self, camera: &CameraController, params: PassParams) -> (r: Dispatch)
        requires
            camera.camera.viewport.size.x <= u32::MAX - 7,
            camera.camera.viewport.size.y <= u32::MAX - 7,
        ensures
            r == (Dispatch {
                shader: self.spec_pass().shader,
                size: camera.camera.viewport.size.spec_covering_warps(),
                params,
            }),
    {
        // This pass uses 8x8 warps:
        let size = camera.camera.viewport.size.covering_warps();
        self.pass.run(size, params)
    }

    /// The dispatch for this frame, with a fresh random seed.
    pub fn run(&self, camera: &CameraController) -> (r: Dispatch)
        requires
            camera.camera.viewport.size.x <= u32::MAX - 7,
            camera.camera.viewport.size.y <= u32::MAX - 7,
        ensures
            r.shader == self.spec_pass().shader,
            r.size == camera.camera.viewport.size.spec_covering_warps(),
            r.params.frame == camera.frame,
    {
        self.dispatch(camera, camera.pass_params())
    }

    /// Where the hit of the pixel of slot `idx` lies in the world; the
    /// origin where the buffer ends before the slot.
    pub open spec fn spec_point(points: Seq<Vec3>, idx: int) -> Vec3 {
        if 0 <= idx < points.len() {
            points[idx]
        } else {
            Vec3 { x: 0, y: 0, z: 0 }
        }
    }

    /// The radiance of the sky along the ray of the pixel of slot `idx`;
    /// none where the buffer ends before the slot.
    pub open spec fn spec_sky(sky: Seq<Rgb>, idx: int) -> Rgb {
        if 0 <= idx < sky.len() {
            sky[idx]
        } else {
            Rgb::spec_black()
        }
    }

    /// The colour that the pass resolves a pixel of the viewport to.
    pub open spec fn spec_pixel(
        camera: Camera,
        lights: LightsView,
        prim_gbuffer_d0: TexRgba32,
        prim_gbuffer_d1: TexRgba32,
        points: Seq<Vec3>,
        sky: Seq<Rgb>,
        next_reservoirs: Seq<UVec4>,
        screen_pos: UVec2,
    ) -> Rgb {
        let idx = camera.spec_screen_to_idx(screen_pos);
        spec_load(screen_pos, camera, prim_gbuffer_d0, prim_gbuffer_d1, next_reservoirs).spec_shaded(
            lights@,
            Self::spec_point(points, idx),
            Self::spec_sky(sky, idx),
        )
    }

    /// Runs the pass on the host, pixel by pixel, in a scene of diffuse
    /// surfaces. Every pixel of the viewport that the output holds gets its
    /// colour; the output keeps what it held elsewhere. Every pixel's final
    /// reservoir becomes the next frame's history, as far as the buffer of
    /// previous reservoirs has a slot for it. Without lights, every pixel
    /// that shows geometry comes out black.
    pub fn execute(
        &self,
        camera: &Camera,
        lights: &LightsView,
        prim_gbuffer_d0: TexRgba32,
        prim_gbuffer_d1: TexRgba32,
        points: &Vec<Vec3>,
        sky: &Vec<Rgb>,
        next_reservoirs: &Vec<UVec4>,
        prev_reservoirs: &mut Vec<UVec4>,
        output: &mut Image,
    )
        ensures
            final(output).spec_size() == old(output).spec_size(),
            forall|pos: UVec2|
                camera.spec_contains(pos) && old(output).spec_contains(pos)
                    ==> #[trigger] final(output).spec_read(pos) == Self::spec_pixel(
                    *camera,
                    *lights,
                    prim_gbuffer_d0,
                    prim_gbuffer_d1,
                    points@,
                    sky@,
                    next_reservoirs@,
                    pos,
                ).spec_extend(),
            forall|pos: UVec2|
                !camera.spec_contains(pos) ==> #[trigger] final(output).spec_read(pos) == old(
                    output,
                ).spec_read(pos),
            lights@.len() == 0 ==> forall|pos: UVec2|
                camera.spec_contains(pos) && old(output).spec_contains(pos) && spec_load(
                    pos,
                    *camera,
                    prim_gbuffer_d0,
                    prim_gbuffer_d1,
                    next_reservoirs@,
                ).hit.spec_is_some() ==> #[trigger] final(output).spec_read(pos)
                    == Rgb::spec_black().spec_extend(),
            final(prev_reservoirs)@.len() == old(prev_reservoirs)@.len(),
            forall|idx: int|
                0 <= idx < camera.spec_pixels() && 2 * idx + 1 < old(prev_reservoirs)@.len()
                    ==> #[trigger] DiReservoir::spec_read(final(prev_reservoirs)@, idx)
                    == DiReservoir::spec_read(next_reservoirs@, idx),
            forall|idx: int|
                idx >= camera.spec_pixels() ==> #[trigger] DiReservoir::spec_read(
                    final(prev_reservoirs)@,
                    idx,
                ) == DiReservoir::spec_read(old(prev_reservoirs)@, idx),
    {
        let pixels: u64 = camera.pixels();
        let mut idx: u64 = 0;
        while idx < pixels
            invariant
                idx <= pixels,
                pixels == camera.spec_pixels(),
                output.spec_size() == old(output).spec_size(),
                prev_reservoirs@.len() == old(prev_reservoirs)@.len(),
                forall|pos: UVec2|
                    camera.spec_contains(pos) && camera.spec_screen_to_idx(pos) < idx && old(
                        output,
                    ).spec_contains(pos) ==> #[trigger] output.spec_read(pos) == Self::spec_pixel(
                        *camera,
                        *lights,
                        prim_gbuffer_d0,
                        prim_gbuffer_d1,
                        points@,
                        sky@,
                        next_reservoirs@,
                        pos,
                    ).spec_extend(),
                forall|pos: UVec2|
                    !(camera.spec_contains(pos) && camera.spec_screen_to_idx(pos) < idx)
                        ==> #[trigger] output.spec_read(pos) == old(output).spec_read(pos),
                forall|k: int|
                    0 <= k < idx && 2 * k + 1 < prev_reservoirs@.len()
                        ==> #[trigger] DiReservoir::spec_read(prev_reservoirs@, k)
                        == DiReservoir::spec_read(next_reservoirs@, k),
                forall|k: int|
                    k >= idx ==> #[trigger] DiReservoir::spec_read(prev_reservoirs@, k)
                        == DiReservoir::spec_read(old(prev_reservoirs)@, k),
            decreases pixels - idx,
        {
            let screen_pos = camera.idx_to_screen(idx);
            let point: Vec3 = if idx < points.len() as u64 {
                points[idx as usize]
            } else {
                Vec3 { x: 0, y: 0, z: 0 }
            };
            let above: Rgb = if idx < sky.len() as u64 {
                sky[idx as usize]
            } else {
                Rgb { r: 0, g: 0, b: 0 }
            };
            let ghost output_before = *output;
            let ghost prev_before = prev_reservoirs@;
            match load(screen_pos, camera, prim_gbuffer_d0, prim_gbuffer_d1, next_reservoirs) {
                Some(pixel) => {
                    resolve(&pixel, lights, &point, above, prev_reservoirs, output);
                    proof {
                        assert forall|k: int| 0 <= k implies #[trigger] DiReservoir::spec_read(
                            prev_reservoirs@,
                            k,
                        ) == (if k == idx && 2 * k + 1 < prev_before.len() {
                            pixel.reservoir
                        } else {
                            DiReservoir::spec_read(prev_before, k)
                        }) by {
                            DiReservoir::lemma_read_write(pixel.reservoir, prev_before, idx as int, k);
                        }
                        assert forall|pos: UVec2|
                            camera.spec_contains(pos) && camera.spec_screen_to_idx(pos) == idx
                            implies pos == screen_pos by {
                            camera.lemma_screen_to_idx(pos, screen_pos);
                        }
                    }
                },
                None => {},
            }
            idx = idx + 1;
        }
        proof {
            assert forall|pos: UVec2| camera.spec_contains(pos) implies camera.spec_screen_to_idx(
                pos,
            ) < pixels by {
                camera.lemma_screen_to_idx(pos, pos);
            }
            if lights@.len() == 0 {
                assert forall|pos: UVec2|
                    camera.spec_contains(pos) && old(output).spec_contains(pos) && spec_load(
                        pos,
                        *camera,
                        prim_gbuffer_d0,
                        prim_gbuffer_d1,
                        next_reservoirs@,
                    ).hit.spec_is_some() implies #[trigger] output.spec_read(pos)
                    == Rgb::spec_black().spec_extend() by {
                    let pixel = spec_load(
                        pos,
                        *camera,
                        prim_gbuffer_d0,
                        prim_gbuffer_d1,
                        next_reservoirs@,
                    );
                    let idx = camera.spec_screen_to_idx(pos);
                    lemma_no_lights(
                        pixel,
                        lights@,
                        Self::spec_point(points@, idx),
                        Self::spec_sky(sky@, idx),
                    );
                }
            }
        }
    }
}

} // verus!
