//! The pass that composites the resolved lighting into the host's target.

use vstd::prelude::*;
use crate::camera::{Camera, CameraMode};
use crate::camera_controller::passes::{spec_group, Access, Binding, Resource, Shader};
use crate::camera_controller::CameraController;
use crate::uvec::UVec2;

verus! {

/// Size in bytes of the drawing pass's parameter block, which is one `u32`.
pub const DRAWING_PARAMS_SIZE: u32 = 4;

/// The parameter block that each draw pushes to the fragment shader.
#[derive(Clone, Copy, Debug, PartialEq, Eq, Structural)]
pub struct DrawingPassParams {
    pub viewport_mode: u32,
}

/// A rectangle of pixels.
#[derive(Clone, Copy, Debug, PartialEq, Eq, Structural)]
pub struct Rect {
    pub x: u32,
    pub y: u32,
    pub width: u32,
    pub height: u32,
}

/// A half-open range of vertex or instance numbers.
#[derive(Clone, Copy, Debug, PartialEq, Eq, Structural)]
pub struct DrawRange {
    pub start: u32,
    pub end: u32,
}

/// What becomes of a target's earlier content when a render pass begins.
#[derive(Clone, Copy, Debug, PartialEq, Eq, Structural)]
pub enum LoadOp {
    /// It is wiped.
    Clear,
    /// It is kept.
    Load,
}

/// How a render pass treats its colour target.
#[derive(Clone, Copy, Debug, PartialEq, Eq, Structural)]
pub struct ColorAttachment {
    pub load: LoadOp,
    /// Whether what the pass draws is written to the target.
    pub store: bool,
    /// Whether the pass resolves multisampled colour into a second target.
    pub resolve_target: bool,
}

/// Everything that one draw of the pass sets: one render pass with one
/// colour attachment, the host's target, and one draw in it.
#[derive(Debug)]
pub struct DrawCall {
    pub color_attachment: ColorAttachment,
    /// Whether the render pass has a depth and stencil attachment.
    pub depth_stencil_attachment: bool,
    pub scissor: Rect,
    /// Bytes pushed to the fragment stage at offset zero.
    pub push_constants: Vec<u8>,
    pub vertices: DrawRange,
    pub instances: DrawRange,
}

impl Rect {
    /// Whether a pixel lies inside the rectangle.
    pub open spec fn spec_contains(&self, pos: UVec2) -> bool {
        &&& self.x <= pos.x < self.x + self.width
        &&& self.y <= pos.y < self.y + self.height
    }
}

impl DrawCall {
    /// Whether the draw can change a pixel of the target. Where the
    /// target's earlier content is loaded, only what lies inside the
    /// scissor rectangle can change, and only if the pass stores at all.
    pub open spec fn spec_can_change(&self, pos: UVec2) -> bool {
        self.color_attachment.load == LoadOp::Clear || (self.color_attachment.store
            && self.scissor.spec_contains(pos))
    }

    pub fn can_change(&self, pos: UVec2) -> (r: bool)
        ensures
            r == self.spec_can_change(pos),
    {
        let inside = self.scissor.x <= pos.x && (pos.x as u64) < self.scissor.x as u64
            + self.scissor.width as u64 && self.scissor.y <= pos.y && (pos.y as u64)
            < self.scissor.y as u64 + self.scissor.height as u64;
        match self.color_attachment.load {
            LoadOp::Clear => true,
            LoadOp::Load => self.color_attachment.store && inside,
        }
    }
}

/// The four bytes of a number, lowest first.
pub open spec fn spec_le_bytes(v: u32) -> Seq<u8> {
    seq![
        (v % 256) as u8,
        (v / 256 % 256) as u8,
        (v / 65536 % 256) as u8,
        (v / 16777216) as u8,
    ]
}

/// The four bytes of a number, highest first.
pub open spec fn spec_be_bytes(v: u32) -> Seq<u8> {
    seq![
        (v / 16777216) as u8,
        (v / 65536 % 256) as u8,
        (v / 256 % 256) as u8,
        (v % 256) as u8,
    ]
}

/// The bytes of a number as the machine holds it in memory.
pub open spec fn spec_is_native_bytes(bytes: Seq<u8>, v: u32) -> bool {
    bytes == spec_le_bytes(v) || bytes == spec_be_bytes(v)
}

/// `bytemuck::bytes_of` on a `u32`: the number's four bytes as they lie in
/// memory, which is lowest first or highest first, as the machine has it.
#[verifier::external_body]
fn bytes_of(v: u32) -> (bytes: Vec<u8>)
    ensures
        spec_is_native_bytes(bytes@, v),
{
    bytemuck::bytes_of(&v).to_vec()
}

/// Puts the resolved lighting on screen, in the view mode of the camera.
#[derive(Debug)]
pub struct DrawingPass {
    bg0: Vec<Binding>,
    format: wgpu::TextureFormat,
}

impl DrawingPass {
    /// The one bind group of the pass: the camera and the three textures it
    /// can show.
    pub open spec fn spec_layout() -> Seq<Binding> {
        spec_group(
            0,
            seq![
                (Resource::Camera, Access::Readable),
                (Resource::Directs, Access::Sampled),
                (Resource::Indirects, Access::Sampled),
                (Resource::Normals, Access::Sampled),
            ],
        )
    }

    pub closed spec fn spec_bindings(&self) -> Seq<Binding> {
        self.bg0@
    }

    /// The pixel format of the target that the pass's pipeline writes.
    pub closed spec fn spec_format(&self) -> wgpu::TextureFormat {
        self.format
    }

    /// The pass for a camera: its bind group laid out, and its one colour
    /// target in the pixel format of the camera's viewport.
    pub fn new(config: &Camera) -> (r: Self)
        ensures
            r.spec_bindings() == Self::spec_layout(),
            r.spec_format() == config.viewport.format,
    {
        let bg0 = vec![
            Binding { group: 0, resource: Resource::Camera, access: Access::Readable },
            Binding { group: 0, resource: Resource::Directs, access: Access::Sampled },
            Binding { group: 0, resource: Resource::Indirects, access: Access::Sampled },
            Binding { group: 0, resource: Resource::Normals, access: Access::Sampled },
        ];
        assert(bg0@ =~= Self::spec_layout());
        Self { bg0, format: config.viewport.format }
    }

    /// The pixel format of the pipeline's colour target.
    pub fn format(&self) -> (r: wgpu::TextureFormat)
        ensures
            r == self.spec_format(),
    {
        self.format
    }

    /// The pass's bindings, in binding order.
    pub fn bindings(&self) -> (r: &Vec<Binding>)
        ensures
            r@ == self.spec_bindings(),
    {
        &self.bg0
    }

    /// The shader that holds both entry points of the pass.
    pub fn shader(&self) -> (r: Shader)
        ensures
            r == Shader::Drawing,
    {
        Shader::Drawing
    }

    /// The byte range of push constants that the pipeline layout declares
    /// for the fragment stage.
    pub fn push_constant_range(&self) -> (r: DrawRange)
        ensures
            r == (DrawRange { start: 0, end: DRAWING_PARAMS_SIZE }),
    {
        DrawRange { start: 0, end: DRAWING_PARAMS_SIZE }
    }

    /// The parameter block for a view mode.
    pub fn params(mode: CameraMode) -> (r: DrawingPassParams)
        ensures
            r.viewport_mode == mode.spec_serialize(),
    {
        DrawingPassParams { viewport_mode: mode.serialize() }
    }

    /// The draw of this frame: one full-screen triangle, clipped to the
    /// camera's viewport, with the view mode as push constants. The
    /// target's earlier content is loaded and the outcome stored, without
    /// resolve target and without depth, so that the target keeps what it
    /// held outside the viewport.
    pub fn run(&self, camera: &CameraController) -> (r: DrawCall)
        ensures
            r.color_attachment == (ColorAttachment {
                load: LoadOp::Load,
                store: true,
                resolve_target: false,
            }),
            !r.depth_stencil_attachment,
            forall|pos: UVec2|
                #[trigger] r.spec_can_change(pos) <==> r.scissor.spec_contains(pos),
            r.scissor == (Rect {
                x: camera.camera.viewport.position.x,
                y: camera.camera.viewport.position.y,
                width: camera.camera.viewport.size.x,
                height: camera.camera.viewport.size.y,
            }),
            spec_is_native_bytes(r.push_constants@, camera.camera.mode.spec_serialize()),
            r.push_constants@.len() == DRAWING_PARAMS_SIZE,
            r.vertices == (DrawRange { start: 0, end: 3 }),
            r.instances == (DrawRange { start: 0, end: 1 }),
    {
        let params = Self::params(camera.camera.mode);
        let position: UVec2 = camera.camera.viewport.position;
        let size: UVec2 = camera.camera.viewport.size;
        DrawCall {
            color_attachment: ColorAttachment {
                load: LoadOp::Load,
                store: true,
                resolve_target: false,
            },
            depth_stencil_attachment: false,
            scissor: Rect { x: position.x, y: position.y, width: size.x, height: size.y },
            push_constants: bytes_of(params.viewport_mode),
            vertices: DrawRange { start: 0, end: 3 },
            instances: DrawRange { start: 0, end: 1 },
        }
    }
}

} // verus!
