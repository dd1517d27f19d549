//! The pass that traces the reference path tracer's rays, one bounce at a
//! time.

use vstd::prelude::*;
use crate::camera_controller::passes::{
    spec_group, Access, Binding, CameraComputePass, Resource, Shader,
};
use crate::camera_controller::{random_seed, CameraController};
use crate::uvec::UVec2;

verus! {

/// The parameters of one reference-tracing dispatch.
#[derive(Clone, Copy, Debug, PartialEq, Eq, Structural)]
pub struct RefPassParams {
    pub seed: u32,
    pub frame: u32,
    /// Number of the bounce that is traced.
    pub depth: u32,
}

/// One dispatch of the reference tracer.
#[derive(Clone, Copy, Debug, PartialEq, Eq, Structural)]
pub struct RefDispatch {
    pub shader: Shader,
    /// Number of tiles along each axis.
    pub size: UVec2,
    pub params: RefPassParams,
}

/// Traces one bounce of the reference path tracer.
#[derive(Debug)]
pub struct RefTracingPass {
    pass: CameraComputePass,
}

impl RefTracingPass {
    /// What the pass binds: the scene without its lights, then the camera,
    /// the rays to trace and the hits to write.
    pub open spec fn spec_layout() -> Seq<Binding> {
        spec_group(
            0,
            seq![
                (Resource::Triangles, Access::Readable),
                (Resource::Bvh, Access::Readable),
                (Resource::Materials, Access::Readable),
                (Resource::Images, Access::Atlas),
            ],
        ) + spec_group(
            1,
            seq![
                (Resource::Camera, Access::Readable),
                (Resource::RefRays, Access::Readable),
                (Resource::RefHits, Access::Writable),
            ],
        )
    }

    pub closed spec fn spec_pass(&self) -> CameraComputePass {
        self.pass
    }

    /// The pass with its bind groups laid out.
    pub fn new() -> (r: Self)
        ensures
            r.spec_pass().bindings@ == Self::spec_layout(),
            r.spec_pass().shader == Shader::RefTracing,
            r.spec_pass().label == "reference_tracing",
    {
        let pass = CameraComputePass::builder("reference_tracing").bind(
            vec![
                Resource::Triangles.bind_readable(),
                Resource::Bvh.bind_readable(),
                Resource::Materials.bind_readable(),
                Resource::Images.bind_atlas(),
            ],
        ).bind(
            vec![
                Resource::Camera.bind_readable(),
                Resource::RefRays.bind_readable(),
                Resource::RefHits.bind_writable(),
            ],
        ).build(Shader::RefTracing);
        Self { pass }
    }

    /// The pass's bindings, in binding order.
    pub fn bindings(&self) -> (r: &Vec<Binding>)
        ensures
            r@ == self.spec_pass().bindings@,
    {
        &self.pass.bindings
    }

    /// The dispatch for a given seed: as many 8x8 tiles as cover the
    /// viewport, for the given bounce of this frame.
    pub fn dispatch(&self, camera: &CameraController, depth: u8, seed: u32) -> (r: RefDispatch)
        requires
            camera.camera.viewport.size.x <= u32::MAX - 7,
            camera.camera.viewport.size.y <= u32::MAX - 7,
        ensures
            r == (RefDispatch {
                shader: self.spec_pass().shader,
                size: camera.camera.viewport.size.spec_covering_warps(),
                params: RefPassParams { seed, frame: camera.frame, depth: depth as u32 },
            }),
    {
        // This pass uses 8x8 warps:
        let size = camera.camera.viewport.size.covering_warps();
        let params = RefPassParams { seed, frame: camera.frame, depth: depth as u32 };
        RefDispatch { shader: self.pass.shader, size, params }
    }

    /// The dispatch for one bounce of this frame, with a fresh random seed.
    pub fn run(&self, camera: &CameraController, depth: u8) -> (r: RefDispatch)
        requires
            camera.camera.viewport.size.x <= u32::MAX - 7,
            camera.camera.viewport.size.y <= u32::MAX - 7,
        ensures
            r.shader == self.spec_pass().shader,
            r.size == camera.camera.viewport.size.spec_covering_warps(),
            r.params.frame == camera.frame,
            r.params.depth == depth,
    {
        self.dispatch(camera, depth, random_seed())
    }
}

} // verus!
