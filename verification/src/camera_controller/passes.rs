//! What the passes have in common: the resources they bind, how they bind
//! them, and the dispatch that running one comes to.

use vstd::prelude::*;
use crate::camera_controller::PassParams;
use crate::uvec::UVec2;

pub mod direct_resolving;
pub mod direct_spatial_resampling;
pub mod direct_temporal_resampling;
pub mod drawing;
pub mod ref_tracing;

verus! {

/// A buffer or texture that a pass can bind. The first six belong to the
/// scene and are shared by all cameras, the others to one camera.
#[derive(Clone, Copy, Debug, PartialEq, Eq, Structural)]
pub enum Resource {
    Triangles,
    Bvh,
    Materials,
    Lights,
    Images,
    World,
    Camera,
    AtmosphereTransmittanceLut,
    AtmosphereSkyLut,
    ReprojectionMap,
    SurfaceMap,
    DirectGbufferD0,
    DirectGbufferD1,
    DirectCandidates,
    DirectPrevReservoirs,
    DirectCurrReservoirs,
    DirectNextReservoirs,
    DirectSamples,
    RefRays,
    RefHits,
    Directs,
    Indirects,
    Normals,
}

/// How a pass binds a resource.
#[derive(Clone, Copy, Debug, PartialEq, Eq, Structural)]
pub enum Access {
    /// Read-only storage or uniform data.
    Readable,
    /// Storage that the pass writes.
    Writable,
    /// A texture read through a sampler.
    Sampled,
    /// The texture atlas with its sampler.
    Atlas,
}

/// One entry of a bind group.
#[derive(Clone, Copy, Debug, PartialEq, Eq, Structural)]
pub struct Binding {
    /// Number of the bind group.
    pub group: u32,
    pub resource: Resource,
    pub access: Access,
}

impl Resource {
    pub fn bind_readable(self) -> (r: (Resource, Access))
        ensures
            r == (self, Access::Readable),
    {
        (self, Access::Readable)
    }

    pub fn bind_writable(self) -> (r: (Resource, Access))
        ensures
            r == (self, Access::Writable),
    {
        (self, Access::Writable)
    }

    pub fn bind_sampled(self) -> (r: (Resource, Access))
        ensures
            r == (self, Access::Sampled),
    {
        (self, Access::Sampled)
    }

    pub fn bind_atlas(self) -> (r: (Resource, Access))
        ensures
            r == (self, Access::Atlas),
    {
        (self, Access::Atlas)
    }
}

/// The compiled shader that a pass runs.
#[derive(Clone, Copy, Debug, PartialEq, Eq, Structural)]
pub enum Shader {
    DirectResolving,
    DirectSpatialResampling,
    DirectTemporalResampling,
    Drawing,
    RefTracing,
}

/// The entries of one bind group, numbered `group`.
pub open spec fn spec_group(group: u32, items: Seq<(Resource, Access)>) -> Seq<Binding> {
    Seq::new(
        items.len(),
        |i: int| Binding { group, resource: items[i].0, access: items[i].1 },
    )
}

/// Whether a layout writes a resource.
pub open spec fn spec_writes(layout: Seq<Binding>, resource: Resource) -> bool {
    exists|i: int|
        0 <= i < layout.len() && (#[trigger] layout[i]).resource == resource && layout[i].access
            == Access::Writable
}

/// Whether a layout reads a resource, in any way.
pub open spec fn spec_reads(layout: Seq<Binding>, resource: Resource) -> bool {
    exists|i: int|
        0 <= i < layout.len() && (#[trigger] layout[i]).resource == resource && layout[i].access
            != Access::Writable
}

/// No resource is bound twice. In particular none is both read and written
/// in one dispatch.
pub open spec fn spec_hazard_free(layout: Seq<Binding>) -> bool {
    forall|i: int, j: int|
        0 <= i < j < layout.len() ==> (#[trigger] layout[i]).resource != (
        #[trigger] layout[j]).resource
}

/// A compute pass of one camera: a shader and what it binds.
#[derive(Debug)]
pub struct CameraComputePass {
    pub label: &'static str,
    pub shader: Shader,
    pub bindings: Vec<Binding>,
}

/// Collects the bind groups of a pass, one `bind` per group.
pub struct CameraComputePassBuilder {
    pub label: &'static str,
    pub bindings: Vec<Binding>,
    pub groups: u32,
}

impl CameraComputePass {
    pub fn builder(label: &'static str) -> (r: CameraComputePassBuilder)
        ensures
            r.label == label,
            r.bindings@ == Seq::<Binding>::empty(),
            r.groups == 0,
    {
        CameraComputePassBuilder { label, bindings: Vec::new(), groups: 0 }
    }

    /// The dispatch that runs this pass over `size` tiles.
    pub fn run(&self, size: UVec2, params: PassParams) -> (r: Dispatch)
        ensures
            r == (Dispatch { shader: self.shader, size, params }),
    {
        Dispatch { shader: self.shader, size, params }
    }
}

impl CameraComputePassBuilder {
    /// Adds the next bind group.
    pub fn bind(self, items: Vec<(Resource, Access)>) -> (r: CameraComputePassBuilder)
        requires
            self.groups < u32::MAX,
        ensures
            r.label == self.label,
            r.groups == self.groups + 1,
            r.bindings@ == self.bindings@ + spec_group(self.groups, items@),
    {
        let mut bindings = self.bindings;
        let group = self.groups;
        let mut i: usize = 0;
        while i < items.len()
            invariant
                i <= items.len(),
                bindings@ == self.bindings@ + spec_group(group, items@.take(i as int)),
            decreases items.len() - i,
        {
            let item = items[i];
            bindings.push(Binding { group, resource: item.0, access: item.1 });
            assert(items@.take(i as int + 1) == items@.take(i as int).push(items@[i as int]));
            i = i + 1;
        }
        assert(items@.take(items.len() as int) == items@);
        CameraComputePassBuilder { label: self.label, bindings, groups: group + 1 }
    }

    pub fn build(self, shader: Shader) -> (r: CameraComputePass)
        ensures
            r.label == self.label,
            r.shader == shader,
            r.bindings@ == self.bindings@,
    {
        CameraComputePass { label: self.label, shader, bindings: self.bindings }
    }
}

/// No pass binds a resource twice, so none reads what it writes.
pub proof fn lemma_passes_hazard_free()
    ensures
        spec_hazard_free(direct_temporal_resampling::DirectTemporalResamplingPass::spec_layout()),
        spec_hazard_free(direct_spatial_resampling::DirectSpatialResamplingPass::spec_layout()),
        spec_hazard_free(direct_resolving::DirectResolvingPass::spec_layout()),
        spec_hazard_free(ref_tracing::RefTracingPass::spec_layout()),
        spec_hazard_free(drawing::DrawingPass::spec_layout()),
{
}

/// The three reservoir buffers take turns. Temporal resampling reads the
/// previous frame's reservoirs and writes the current ones; spatial
/// resampling reads those and writes the next ones; resolving reads those
/// and writes them back as the coming frame's previous ones. Each pass
/// writes exactly one of the three, and never one that it reads.
pub proof fn lemma_reservoir_rotation()
    ensures
        ({
            let temporal = direct_temporal_resampling::DirectTemporalResamplingPass::spec_layout();
            let spatial = direct_spatial_resampling::DirectSpatialResamplingPass::spec_layout();
            let resolving = direct_resolving::DirectResolvingPass::spec_layout();
            &&& spec_reads(temporal, Resource::DirectPrevReservoirs)
            &&& spec_writes(temporal, Resource::DirectCurrReservoirs)
            &&& !spec_writes(temporal, Resource::DirectPrevReservoirs)
            &&& !spec_writes(temporal, Resource::DirectNextReservoirs)
            &&& spec_reads(spatial, Resource::DirectCurrReservoirs)
            &&& spec_writes(spatial, Resource::DirectNextReservoirs)
            &&& !spec_writes(spatial, Resource::DirectCurrReservoirs)
            &&& !spec_writes(spatial, Resource::DirectPrevReservoirs)
            &&& spec_reads(resolving, Resource::DirectNextReservoirs)
            &&& spec_writes(resolving, Resource::DirectPrevReservoirs)
            &&& !spec_writes(resolving, Resource::DirectNextReservoirs)
            &&& !spec_writes(resolving, Resource::DirectCurrReservoirs)
        }),
{
    let temporal = direct_temporal_resampling::DirectTemporalResamplingPass::spec_layout();
    let spatial = direct_spatial_resampling::DirectSpatialResamplingPass::spec_layout();
    let resolving = direct_resolving::DirectResolvingPass::spec_layout();
    assert(temporal[10].resource == Resource::DirectPrevReservoirs);
    assert(temporal[11].resource == Resource::DirectCurrReservoirs);
    assert(spatial[9].resource == Resource::DirectCurrReservoirs);
    assert(spatial[10].resource == Resource::DirectNextReservoirs);
    assert(resolving[7].resource == Resource::DirectNextReservoirs);
    assert(resolving[8].resource == Resource::DirectPrevReservoirs);
}

/// The number at an index of a buffer; zero where the buffer ends before
/// it.
pub open spec fn spec_at(buffer: Seq<u64>, idx: int) -> u64 {
    if 0 <= idx < buffer.len() {
        buffer[idx]
    } else {
        0
    }
}

/// Reads a number from a buffer; zero where the buffer ends before it.
pub fn at(buffer: &Vec<u64>, idx: u64) -> (r: u64)
    ensures
        r == spec_at(buffer@, idx as int),
{
    if idx < buffer.len() as u64 {
        buffer[idx as usize]
    } else {
        0
    }
}

/// The number that a buffer holds for the `j`-th of `per` entries of slot
/// `idx`; zero where the buffer ends before it.
pub open spec fn spec_at_entry(buffer: Seq<u64>, idx: int, per: int, j: int) -> u64 {
    spec_at(buffer, idx * per + j)
}

/// Reads the number of the `j`-th of `per` entries of a slot.
pub fn at_entry(buffer: &Vec<u64>, idx: u64, per: u32, j: u32) -> (r: u64)
    ensures
        r == spec_at_entry(buffer@, idx as int, per as int, j as int),
{
    assert(0 <= idx * per <= 0xffff_ffff_ffff_ffff * 0xffff_ffff) by (nonlinear_arith)
        requires
            0 <= idx <= 0xffff_ffff_ffff_ffff,
            0 <= per <= 0xffff_ffff,
    ;
    let wide: u128 = (idx as u128) * (per as u128) + (j as u128);
    if wide < buffer.len() as u128 {
        buffer[wide as usize]
    } else {
        0
    }
}

/// One dispatch of a compute shader over a grid of 8x8 tiles.
#[derive(Clone, Copy, Debug, PartialEq, Eq, Structural)]
pub struct Dispatch {
    pub shader: Shader,
    /// Number of tiles along each axis.
    pub size: UVec2,
    pub params: PassParams,
}

} // verus!
