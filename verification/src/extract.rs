//! What the host's scene changes come to, frame by frame.
//!
//! The host reports assets and entities by stable 64-bit identifiers. The
//! functions here turn one frame's reports into the lists of what has to be
//! uploaded anew and what has to be dropped.

use std::collections::{HashMap, HashSet};
use vstd::prelude::*;
use crate::camera::CameraMode;
use crate::color::Rgb;
use crate::light::Light;
use crate::normal::Vec3;

verus! {

broadcast use vstd::std_specs::hash::group_hash_axioms;

/// What happened to an asset.
#[derive(Clone, Copy, Debug, PartialEq, Eq, Structural)]
pub enum AssetEvent {
    Created { handle: u64 },
    Modified { handle: u64 },
    Removed { handle: u64 },
}

impl AssetEvent {
    pub open spec fn spec_handle(self) -> u64 {
        match self {
            AssetEvent::Created { handle } => handle,
            AssetEvent::Modified { handle } => handle,
            AssetEvent::Removed { handle } => handle,
        }
    }

    /// Whether the event makes its asset a changed one.
    pub open spec fn spec_touches(self) -> bool {
        !(self is Removed)
    }
}

/// The assets that a list of events leaves as changed: those created or
/// modified and not removed afterwards.
pub open spec fn spec_changed(events: Seq<AssetEvent>) -> Set<u64>
    decreases events.len(),
{
    if events.len() == 0 {
        Set::empty()
    } else if events.last().spec_touches() {
        spec_changed(events.drop_last()).insert(events.last().spec_handle())
    } else {
        spec_changed(events.drop_last()).remove(events.last().spec_handle())
    }
}

/// The assets that a list of events removes, one entry per removal, in
/// the order of the events.
pub open spec fn spec_removed(events: Seq<AssetEvent>) -> Seq<u64>
    decreases events.len(),
{
    if events.len() == 0 {
        Seq::empty()
    } else if events.last().spec_touches() {
        spec_removed(events.drop_last())
    } else {
        spec_removed(events.drop_last()).push(events.last().spec_handle())
    }
}

/// Whether two lists are what one frame's events come to, given the
/// assets that the host still has. The changed assets that still exist are
/// listed once each, in no stated order. The removed list starts with the
/// events' removals; then come, once each and in no stated order, the
/// changed assets that exist no more.
pub open spec fn spec_extracted(
    events: Seq<AssetEvent>,
    present: Set<u64>,
    changed: Seq<u64>,
    removed: Seq<u64>,
) -> bool {
    let n = spec_removed(events).len() as int;
    &&& changed.no_duplicates()
    &&& changed.to_set() == spec_changed(events).intersect(present)
    &&& removed.len() >= n
    &&& removed.subrange(0, n) == spec_removed(events)
    &&& removed.subrange(n, removed.len() as int).no_duplicates()
    &&& removed.subrange(n, removed.len() as int).to_set() == spec_changed(events).difference(
        present,
    )
}

/// A changed asset has an event that created or modified it.
proof fn lemma_changed_has_event(events: Seq<AssetEvent>, handle: u64)
    requires
        spec_changed(events).contains(handle),
    ensures
        exists|j: int|
            0 <= j < events.len() && (#[trigger] events[j]).spec_touches() && events[j].spec_handle()
                == handle,
    decreases events.len(),
{
    if events.len() > 0 {
        let last = events.last();
        if last.spec_touches() && last.spec_handle() == handle {
            assert(events[events.len() - 1] == last);
        } else {
            lemma_changed_has_event(events.drop_last(), handle);
            let j = choose|j: int|
                0 <= j < events.drop_last().len() && (#[trigger] events.drop_last()[j]).spec_touches()
                    && events.drop_last()[j].spec_handle() == handle;
            assert(events[j] == events.drop_last()[j]);
        }
    }
}

/// The set of changed assets and the list of removals of a list of events.
fn fold_events(events: &Vec<AssetEvent>) -> (r: (HashSet<u64>, Vec<u64>))
    ensures
        r.0@ == spec_changed(events@),
        r.1@ == spec_removed(events@),
{
    let mut changed: HashSet<u64> = HashSet::new();
    let mut removed: Vec<u64> = Vec::new();
    let mut i: usize = 0;
    while i < events.len()
        invariant
            i <= events.len(),
            changed@ == spec_changed(events@.take(i as int)),
            removed@ == spec_removed(events@.take(i as int)),
        decreases events.len() - i,
    {
        proof {
            assert(events@.take(i as int + 1).drop_last() == events@.take(i as int));
            assert(events@.take(i as int + 1).last() == events@[i as int]);
        }
        match events[i] {
            AssetEvent::Created { handle } => {
                changed.insert(handle);
            },
            AssetEvent::Modified { handle } => {
                changed.insert(handle);
            },
            AssetEvent::Removed { handle } => {
                changed.remove(&handle);
                removed.push(handle);
            },
        }
        i = i + 1;
    }
    proof {
        assert(events@.take(events.len() as int) == events@);
    }
    (changed, removed)
}

/// Lists the changed assets, each once, in the order in which the events
/// first name them: those that the host still has, and those it has not.
fn split_changed(events: &Vec<AssetEvent>, changed: HashSet<u64>, present: &HashSet<u64>) -> (r: (
    Vec<u64>,
    Vec<u64>,
))
    requires
        changed@ == spec_changed(events@),
    ensures
        r.0@.no_duplicates(),
        r.1@.no_duplicates(),
        r.0@.to_set() == spec_changed(events@).intersect(present@),
        r.1@.to_set() == spec_changed(events@).difference(present@),
{
    let ghost all = changed@;
    let mut pending: HashSet<u64> = changed;
    let mut found: Vec<u64> = Vec::new();
    let mut missing: Vec<u64> = Vec::new();
    let mut i: usize = 0;
    proof {
        assert forall|x: u64| pending@.contains(x) implies exists|j: int|
            0 <= j < events@.len() && (#[trigger] events@[j]).spec_touches()
                && events@[j].spec_handle() == x by {
            lemma_changed_has_event(events@, x);
        }
    }
    while i < events.len()
        invariant
            i <= events.len(),
            found@.no_duplicates(),
            missing@.no_duplicates(),
            forall|x: u64|
                all.contains(x) <==> pending@.contains(x) || found@.contains(x) || missing@.contains(
                    x,
                ),
            forall|x: u64| found@.contains(x) ==> !pending@.contains(x) && present@.contains(x),
            forall|x: u64| missing@.contains(x) ==> !pending@.contains(x) && !present@.contains(x),
            forall|x: u64|
                pending@.contains(x) ==> exists|j: int|
                    i <= j < events@.len() && (#[trigger] events@[j]).spec_touches()
                        && events@[j].spec_handle() == x,
        decreases events.len() - i,
    {
        let event = events[i];
        let ghost before = pending@;
        let ghost found_before = found@;
        let ghost missing_before = missing@;
        match event {
            AssetEvent::Removed { handle } => {},
            AssetEvent::Created { handle } => {
                if pending.remove(&handle) {
                    if present.contains(&handle) {
                        found.push(handle);
                        proof {
                            lemma_push(found_before, handle);
                        }
                    } else {
                        missing.push(handle);
                        proof {
                            lemma_push(missing_before, handle);
                        }
                    }
                }
            },
            AssetEvent::Modified { handle } => {
                if pending.remove(&handle) {
                    if present.contains(&handle) {
                        found.push(handle);
                        proof {
                            lemma_push(found_before, handle);
                        }
                    } else {
                        missing.push(handle);
                        proof {
                            lemma_push(missing_before, handle);
                        }
                    }
                }
            },
        }
        proof {
            assert forall|x: u64| pending@.contains(x) implies exists|j: int|
                i + 1 <= j < events@.len() && (#[trigger] events@[j]).spec_touches()
                    && events@[j].spec_handle() == x by {
                assert(before.contains(x));
                let j = choose|j: int|
                    i <= j < events@.len() && (#[trigger] events@[j]).spec_touches()
                        && events@[j].spec_handle() == x;
                assert(j != i);
            }
        }
        i = i + 1;
    }
    proof {
        assert forall|x: u64| !pending@.contains(x) by {
            if pending@.contains(x) {
                let j = choose|j: int|
                    i <= j < events@.len() && (#[trigger] events@[j]).spec_touches()
                        && events@[j].spec_handle() == x;
            }
        }
        assert(found@.to_set() =~= spec_changed(events@).intersect(present@));
        assert(missing@.to_set() =~= spec_changed(events@).difference(present@));
    }
    (found, missing)
}

/// What pushing does to the members of a list.
proof fn lemma_push(s: Seq<u64>, v: u64)
    ensures
        forall|x: u64| #[trigger] s.push(v).contains(x) <==> s.contains(x) || x == v,
        s.no_duplicates() && !s.contains(v) ==> s.push(v).no_duplicates(),
{
    assert forall|x: u64| #[trigger] s.push(v).contains(x) <==> s.contains(x) || x == v by {
        if s.contains(x) {
            let i = choose|i: int| 0 <= i < s.len() && s[i] == x;
            assert(s.push(v)[i] == x);
        }
        if x == v {
            assert(s.push(v)[s.len() as int] == x);
        }
        if s.push(v).contains(x) {
            let i = choose|i: int| 0 <= i < s.push(v).len() && s.push(v)[i] == x;
            if i < s.len() {
                assert(s[i] == x);
            }
        }
    }
    if s.no_duplicates() && !s.contains(v) {
        assert forall|i: int, j: int|
            0 <= i < s.push(v).len() && 0 <= j < s.push(v).len() && i != j implies s.push(v)[i]
            != s.push(v)[j] by {
            if i < s.len() && j < s.len() {
            } else if i < s.len() {
                assert(s[i] != v);
            } else {
                assert(s[j] != v);
            }
        }
    }
}

/// The lists that one frame's events come to.
fn asset_changes(events: &Vec<AssetEvent>, present: &HashSet<u64>) -> (r: (Vec<u64>, Vec<u64>))
    ensures
        spec_extracted(events@, present@, r.0@, r.1@),
{
    let (changed, mut removed) = fold_events(events);
    let ghost n = removed@.len() as int;
    let (found, mut missing) = split_changed(events, changed, present);
    let ghost tail = missing@;
    removed.append(&mut missing);
    proof {
        assert(removed@.subrange(0, n) =~= spec_removed(events@));
        assert(removed@.subrange(n, removed@.len() as int) =~= tail);
    }
    (found, removed)
}

/// Meshes to upload anew and meshes to drop.
#[derive(Debug)]
pub struct ExtractedMeshes {
    pub changed: Vec<u64>,
    pub removed: Vec<u64>,
}

/// Materials to upload anew and materials to drop.
#[derive(Debug)]
pub struct ExtractedMaterials {
    pub changed: Vec<u64>,
    pub removed: Vec<u64>,
}

/// What a frame's mesh events come to. `present` holds the meshes that the
/// host has at the time; a changed mesh that is not among them counts as
/// removed.
pub fn meshes(events: &Vec<AssetEvent>, present: &HashSet<u64>) -> (r: ExtractedMeshes)
    ensures
        spec_extracted(events@, present@, r.changed@, r.removed@),
{
    let (changed, removed) = asset_changes(events, present);
    ExtractedMeshes { changed, removed }
}

/// What a frame's material events come to. `present` holds the materials
/// that the host has at the time; a changed material that is not among them
/// counts as removed.
pub fn materials(events: &Vec<AssetEvent>, present: &HashSet<u64>) -> (r: ExtractedMaterials)
    ensures
        spec_extracted(events@, present@, r.changed@, r.removed@),
{
    let (changed, removed) = asset_changes(events, present);
    ExtractedMaterials { changed, removed }
}

/// A request of the application.
#[derive(Clone, Copy, Debug, PartialEq, Eq, Structural)]
pub enum StrolleEvent {
    /// From now on the image is a texture that changes every frame, and is
    /// read from the graphics card rather than uploaded once.
    MarkImageAsDynamic { handle: u64 },
}

impl StrolleEvent {
    pub open spec fn spec_handle(self) -> u64 {
        match self {
            StrolleEvent::MarkImageAsDynamic { handle } => handle,
        }
    }
}

/// Whether a list of requests marks an image as dynamic.
pub open spec fn spec_marks(events: Seq<StrolleEvent>, handle: u64) -> bool {
    exists|i: int| 0 <= i < events.len() && (#[trigger] events[i]).spec_handle() == handle
}

/// Whether a list of events removes an asset.
pub open spec fn spec_removes(events: Seq<AssetEvent>, handle: u64) -> bool {
    exists|i: int|
        0 <= i < events.len() && !(#[trigger] events[i]).spec_touches() && events[i].spec_handle()
            == handle
}

/// The images that are dynamic after a frame: those that were or were
/// marked in the frame, but for the ones that the frame removed.
pub open spec fn spec_dynamic(
    dynamic: Set<u64>,
    events: Seq<StrolleEvent>,
    asset_events: Seq<AssetEvent>,
) -> Set<u64> {
    Set::new(
        |h: u64| (dynamic.contains(h) || spec_marks(events, h)) && !spec_removes(asset_events, h),
    )
}

/// How the host samples an image.
#[derive(Clone, Copy, Debug, PartialEq, Eq, Structural)]
pub enum ImageSampler {
    /// As the host's defaults say.
    Default,
    /// As the image's own descriptor says.
    Descriptor,
}

/// How the renderer samples an image.
#[derive(Clone, Copy, Debug, PartialEq, Eq, Structural)]
pub enum ExtractedSampler {
    /// Nearest-texel sampling: the renderer's own default.
    Nearest,
    /// As the image's own descriptor says.
    Descriptor,
}

/// Where the renderer takes an image's texels from.
#[derive(Clone, Copy, Debug, PartialEq, Eq, Structural)]
pub enum ExtractedImageData {
    /// From the image's bytes in host memory, uploaded once.
    Raw,
    /// From the host's texture on the graphics card.
    Texture { is_dynamic: bool },
}

/// An image to upload.
#[derive(Clone, Copy, Debug, PartialEq, Eq, Structural)]
pub struct ExtractedImage {
    pub handle: u64,
    pub sampler: ExtractedSampler,
    pub data: ExtractedImageData,
}

/// Whether texture usage flags allow copying from the texture: the lowest
/// bit is set.
pub open spec fn spec_has_copy_src(usage: u32) -> bool {
    usage % 2 == 1
}

/// `wgpu::TextureUsages::contains` of `COPY_SRC`, on the flags that
/// `from_bits_truncate` makes of a number: whether the bit of `COPY_SRC`,
/// which is the lowest, is set.
#[verifier::external_body]
fn usage_has_copy_src(usage: u32) -> (r: bool)
    ensures
        r == spec_has_copy_src(usage),
{
    wgpu::TextureUsages::from_bits_truncate(usage).contains(wgpu::TextureUsages::COPY_SRC)
}

/// Whether an image may be extracted: a dynamic image is copied from its
/// texture every frame, so its usage flags must allow that.
pub fn is_legal(is_dynamic: bool, usage: u32) -> (r: bool)
    ensures
        r == (is_dynamic ==> spec_has_copy_src(usage)),
{
    !is_dynamic || usage_has_copy_src(usage)
}

/// What an image is extracted as.
pub open spec fn spec_image(handle: u64, sampler: ImageSampler, is_dynamic: bool)
    -> ExtractedImage {
    ExtractedImage {
        handle,
        sampler: match sampler {
            ImageSampler::Default => ExtractedSampler::Nearest,
            ImageSampler::Descriptor => ExtractedSampler::Descriptor,
        },
        data: if is_dynamic {
            ExtractedImageData::Texture { is_dynamic: true }
        } else {
            ExtractedImageData::Raw
        },
    }
}

/// Extracts a changed image that the host still has. An image without a
/// sampler of its own is sampled by the nearest texel. A dynamic image must
/// allow copying from its texture.
pub fn image(handle: u64, sampler: ImageSampler, usage: u32, dynamic_images: &HashSet<u64>) -> (r:
    ExtractedImage)
    requires
        dynamic_images@.contains(handle) ==> spec_has_copy_src(usage),
    ensures
        r == spec_image(handle, sampler, dynamic_images@.contains(handle)),
{
    let sampler = match sampler {
        ImageSampler::Default => ExtractedSampler::Nearest,
        ImageSampler::Descriptor => ExtractedSampler::Descriptor,
    };
    let data = if dynamic_images.contains(&handle) {
        ExtractedImageData::Texture { is_dynamic: true }
    } else {
        ExtractedImageData::Raw
    };
    ExtractedImage { handle, sampler, data }
}

/// What extraction reads of an image that the host has.
#[derive(Clone, Copy, Debug, PartialEq, Eq, Structural)]
pub struct ImageInfo {
    pub sampler: ImageSampler,
    /// The texture's usage flags, as a number.
    pub usage: u32,
}

/// An image that was marked as dynamic although its texture does not
/// allow copying from it. Extraction cannot go on.
#[derive(Clone, Copy, Debug, PartialEq, Eq, Structural)]
pub struct IllegalImage {
    pub handle: u64,
}

/// Images to upload anew and images to drop.
#[derive(Debug)]
pub struct ExtractedImages {
    pub changed: Vec<ExtractedImage>,
    pub removed: Vec<u64>,
}

/// The handles of a list of extracted images.
pub open spec fn spec_image_handles(changed: Seq<ExtractedImage>) -> Seq<u64> {
    changed.map_values(|e: ExtractedImage| e.handle)
}

/// Whether an image stops extraction: it changed, the host still has it,
/// it is dynamic, and its usage flags do not allow copying from it.
pub open spec fn spec_is_illegal(
    asset_events: Seq<AssetEvent>,
    present: Map<u64, ImageInfo>,
    dynamic: Set<u64>,
    handle: u64,
) -> bool {
    &&& spec_changed(asset_events).contains(handle)
    &&& present.contains_key(handle)
    &&& dynamic.contains(handle)
    &&& !spec_has_copy_src(present[handle].usage)
}

/// What a frame's image events come to, and which images are dynamic from
/// now on. `present` holds the images that the host has at the time; a
/// changed image that is not among them counts as removed. Each changed
/// image that the host has is extracted as `image` says. Extraction fails
/// if and only if one of them is dynamic without allowing copies from its
/// texture; the error names such an image. The dynamic marks are updated
/// either way.
pub fn images(
    events: &Vec<StrolleEvent>,
    asset_events: &Vec<AssetEvent>,
    present: &HashMap<u64, ImageInfo>,
    dynamic_images: &mut HashSet<u64>,
) -> (r: Result<ExtractedImages, IllegalImage>)
    ensures
        final(dynamic_images)@ == spec_dynamic(old(dynamic_images)@, events@, asset_events@),
        r is Err <==> exists|h: u64|
            spec_is_illegal(asset_events@, present@, final(dynamic_images)@, h),
        r matches Err(e) ==> spec_is_illegal(
            asset_events@,
            present@,
            final(dynamic_images)@,
            e.handle,
        ),
        r matches Ok(out) ==> {
            &&& spec_extracted(
                asset_events@,
                present@.dom(),
                spec_image_handles(out.changed@),
                out.removed@,
            )
            &&& forall|i: int|
                0 <= i < out.changed@.len() ==> present@.contains_key(
                    (#[trigger] out.changed@[i]).handle,
                ) && out.changed@[i] == spec_image(
                    out.changed@[i].handle,
                    present@[out.changed@[i].handle].sampler,
                    final(dynamic_images)@.contains(out.changed@[i].handle),
                )
        },
{
    let ghost before = dynamic_images@;
    let mut i: usize = 0;
    while i < events.len()
        invariant
            i <= events.len(),
            forall|h: u64|
                #[trigger] dynamic_images@.contains(h) <==> before.contains(h) || spec_marks(
                    events@.take(i as int),
                    h,
                ),
        decreases events.len() - i,
    {
        let ghost so_far = dynamic_images@;
        match events[i] {
            StrolleEvent::MarkImageAsDynamic { handle } => {
                dynamic_images.insert(handle);
            },
        }
        proof {
            lemma_marks_step(events@, i as int);
            assert forall|h: u64| #[trigger]
                dynamic_images@.contains(h) <==> before.contains(h) || spec_marks(
                    events@.take(i as int + 1),
                    h,
                ) by {
                assert(so_far.contains(h) <==> before.contains(h) || spec_marks(
                    events@.take(i as int),
                    h,
                ));
                assert(dynamic_images@.contains(h) <==> so_far.contains(h)
                    || events@[i as int].spec_handle() == h);
            }
        }
        i = i + 1;
    }
    let ghost marked = dynamic_images@;
    let mut j: usize = 0;
    while j < asset_events.len()
        invariant
            j <= asset_events.len(),
            forall|h: u64|
                #[trigger] dynamic_images@.contains(h) <==> marked.contains(h) && !spec_removes(
                    asset_events@.take(j as int),
                    h,
                ),
        decreases asset_events.len() - j,
    {
        let ghost so_far = dynamic_images@;
        match asset_events[j] {
            AssetEvent::Removed { handle } => {
                dynamic_images.remove(&handle);
            },
            AssetEvent::Created { handle } => {},
            AssetEvent::Modified { handle } => {},
        }
        proof {
            lemma_removes_step(asset_events@, j as int);
            let event = asset_events@[j as int];
            assert forall|h: u64| #[trigger]
                dynamic_images@.contains(h) <==> marked.contains(h) && !spec_removes(
                    asset_events@.take(j as int + 1),
                    h,
                ) by {
                assert(so_far.contains(h) <==> marked.contains(h) && !spec_removes(
                    asset_events@.take(j as int),
                    h,
                ));
                assert(dynamic_images@.contains(h) <==> so_far.contains(h) && !(
                !event.spec_touches() && event.spec_handle() == h));
            }
        }
        j = j + 1;
    }
    proof {
        assert(events@.take(events.len() as int) == events@);
        assert(asset_events@.take(asset_events.len() as int) == asset_events@);
        assert forall|h: u64|
            dynamic_images@.contains(h) <==> #[trigger] spec_dynamic(
                before,
                events@,
                asset_events@,
            ).contains(h) by {
            assert(marked.contains(h) <==> before.contains(h) || spec_marks(events@, h));
        }
        assert(dynamic_images@ =~= spec_dynamic(before, events@, asset_events@));
    }
    let ghost now = dynamic_images@;
    let (changed_set, mut removed) = fold_events(asset_events);
    let ghost n = removed@.len() as int;
    let none: HashSet<u64> = HashSet::new();
    let (_, order) = split_changed(asset_events, changed_set, &none);
    proof {
        assert(order@.to_set() =~= spec_changed(asset_events@));
    }
    let mut changed: Vec<ExtractedImage> = Vec::new();
    let mut missing: Vec<u64> = Vec::new();
    let mut k: usize = 0;
    while k < order.len()
        invariant
            k <= order.len(),
            order@.no_duplicates(),
            order@.to_set() == spec_changed(asset_events@),
            dynamic_images@ == now,
            now == spec_dynamic(old(dynamic_images)@, events@, asset_events@),
            spec_image_handles(changed@).no_duplicates(),
            missing@.no_duplicates(),
            forall|x: u64|
                #[trigger] spec_image_handles(changed@).contains(x) <==> order@.take(
                    k as int,
                ).contains(x) && present@.contains_key(x),
            forall|x: u64|
                #[trigger] missing@.contains(x) <==> order@.take(k as int).contains(x)
                    && !present@.contains_key(x),
            forall|i: int|
                0 <= i < changed@.len() ==> present@.contains_key((#[trigger] changed@[i]).handle)
                    && changed@[i] == spec_image(
                    changed@[i].handle,
                    present@[changed@[i].handle].sampler,
                    now.contains(changed@[i].handle),
                ),
            forall|x: u64|
                order@.take(k as int).contains(x) ==> !spec_is_illegal(
                    asset_events@,
                    present@,
                    now,
                    x,
                ),
        decreases order.len() - k,
    {
        let handle: u64 = order[k];
        let ghost changed_before = changed@;
        proof {
            lemma_take_step(order@, k as int);
            lemma_push(missing@, handle);
            lemma_push(spec_image_handles(changed@), handle);
            if order@.take(k as int).contains(handle) {
                let j = choose|j: int|
                    0 <= j < order@.take(k as int).len() && order@.take(k as int)[j] == handle;
                assert(order@[j] == order@[k as int]);
            }
            assert(order@.to_set().contains(handle)) by {
                assert(order@[k as int] == handle);
            }
        }
        match present.get(&handle) {
            Some(info) => {
                if !is_legal(dynamic_images.contains(&handle), info.usage) {
                    proof {
                        assert(spec_is_illegal(asset_events@, present@, now, handle));
                    }
                    return Err(IllegalImage { handle });
                }
                let extracted = image(handle, info.sampler, info.usage, dynamic_images);
                changed.push(extracted);
                proof {
                    assert(spec_image_handles(changed@) =~= spec_image_handles(
                        changed_before,
                    ).push(handle));
                }
            },
            None => {
                missing.push(handle);
            },
        }
        k = k + 1;
    }
    let ghost tail = missing@;
    removed.append(&mut missing);
    proof {
        assert(order@.take(order.len() as int) == order@);
        assert(removed@.subrange(0, n) =~= spec_removed(asset_events@));
        assert(removed@.subrange(n, removed@.len() as int) =~= tail);
        assert(spec_image_handles(changed@).to_set() =~= spec_changed(asset_events@).intersect(
            present@.dom(),
        ));
        assert(tail.to_set() =~= spec_changed(asset_events@).difference(present@.dom()));
        assert forall|h: u64| !spec_is_illegal(asset_events@, present@, now, h) by {
            if spec_changed(asset_events@).contains(h) {
                assert(order@.to_set().contains(h));
            }
        }
    }
    Ok(ExtractedImages { changed, removed })
}

/// One more request marks one more image.
proof fn lemma_marks_step(events: Seq<StrolleEvent>, i: int)
    requires
        0 <= i < events.len(),
    ensures
        forall|h: u64|
            #[trigger] spec_marks(events.take(i + 1), h) <==> spec_marks(events.take(i), h)
                || events[i].spec_handle() == h,
{
    let a = events.take(i);
    let b = events.take(i + 1);
    assert forall|h: u64| #[trigger]
        spec_marks(b, h) <==> spec_marks(a, h) || events[i].spec_handle() == h by {
        if spec_marks(a, h) {
            let k = choose|k: int| 0 <= k < a.len() && (#[trigger] a[k]).spec_handle() == h;
            assert(b[k] == a[k]);
        }
        if events[i].spec_handle() == h {
            assert(b[i] == events[i]);
        }
        if spec_marks(b, h) {
            let k = choose|k: int| 0 <= k < b.len() && (#[trigger] b[k]).spec_handle() == h;
            if k < i {
                assert(a[k] == b[k]);
            }
        }
    }
}

/// One more event removes one more asset, if it is a removal.
proof fn lemma_removes_step(events: Seq<AssetEvent>, i: int)
    requires
        0 <= i < events.len(),
    ensures
        forall|h: u64|
            #[trigger] spec_removes(events.take(i + 1), h) <==> spec_removes(events.take(i), h) || (
            !events[i].spec_touches() && events[i].spec_handle() == h),
{
    let a = events.take(i);
    let b = events.take(i + 1);
    assert forall|h: u64| #[trigger]
        spec_removes(b, h) <==> spec_removes(a, h) || (!events[i].spec_touches()
            && events[i].spec_handle() == h) by {
        if spec_removes(a, h) {
            let k = choose|k: int|
                0 <= k < a.len() && !(#[trigger] a[k]).spec_touches() && a[k].spec_handle() == h;
            assert(b[k] == a[k]);
        }
        if !events[i].spec_touches() && events[i].spec_handle() == h {
            assert(b[i] == events[i]);
        }
        if spec_removes(b, h) {
            let k = choose|k: int|
                0 <= k < b.len() && !(#[trigger] b[k]).spec_touches() && b[k].spec_handle() == h;
            if k < i {
                assert(a[k] == b[k]);
            }
        }
    }
}

/// The entities that were seen with a mesh, a material and a transform,
/// each once.
pub struct KnownInstances {
    entities: Vec<u64>,
}

impl KnownInstances {
    #[verifier::type_invariant]
    spec fn wf(&self) -> bool {
        self.entities@.no_duplicates()
    }

    pub closed spec fn view(&self) -> Set<u64> {
        self.entities@.to_set()
    }

    pub fn new() -> (r: KnownInstances)
        ensures
            r@ == Set::<u64>::empty(),
    {
        let r = KnownInstances { entities: Vec::new() };
        assert(r.entities@.to_set() =~= Set::<u64>::empty());
        r
    }

    pub fn len(&self) -> (r: usize)
        ensures
            r == self@.len(),
    {
        proof {
            use_type_invariant(self);
            self.entities@.unique_seq_to_set();
        }
        self.entities.len()
    }
}

/// Takes note of the instances that changed in a frame and tells which of
/// the known ones exist no more. `all` holds every instance that the host
/// has at the time. The instances that are known afterwards are the known
/// and the changed ones that still exist; the others are returned, once
/// each, in no stated order.
pub fn instances(changed: &Vec<u64>, all: &HashSet<u64>, known: &mut KnownInstances) -> (removed:
    Vec<u64>)
    ensures
        final(known)@ == old(known)@.union(changed@.to_set()).intersect(all@),
        removed@.no_duplicates(),
        removed@.to_set() == old(known)@.union(changed@.to_set()).difference(all@),
{
    proof {
        use_type_invariant(&*known);
    }
    let ghost before = known.entities@;
    let mut seen: HashSet<u64> = HashSet::new();
    let mut keep: Vec<u64> = Vec::new();
    let mut removed: Vec<u64> = Vec::new();
    let mut i: usize = 0;
    while i < known.entities.len()
        invariant
            i <= known.entities.len(),
            known.entities@ == before,
            before.no_duplicates(),
            keep@.no_duplicates(),
            removed@.no_duplicates(),
            forall|x: u64| seen@.contains(x) <==> before.take(i as int).contains(x),
            forall|x: u64| keep@.contains(x) <==> seen@.contains(x) && all@.contains(x),
            forall|x: u64| removed@.contains(x) <==> seen@.contains(x) && !all@.contains(x),
        decreases known.entities.len() - i,
    {
        let entity: u64 = known.entities[i];
        proof {
            lemma_take_step(before, i as int);
            lemma_push(keep@, entity);
            lemma_push(removed@, entity);
            if before.take(i as int).contains(entity) {
                let k = choose|k: int|
                    0 <= k < before.take(i as int).len() && before.take(i as int)[k] == entity;
                assert(before[k] == before[i as int]);
            }
        }
        seen.insert(entity);
        if all.contains(&entity) {
            keep.push(entity);
        } else {
            removed.push(entity);
        }
        i = i + 1;
    }
    proof {
        assert(before.take(before.len() as int) == before);
    }
    let mut j: usize = 0;
    while j < changed.len()
        invariant
            j <= changed.len(),
            keep@.no_duplicates(),
            removed@.no_duplicates(),
            forall|x: u64|
                #[trigger] seen@.contains(x) <==> before.contains(x) || changed@.take(
                    j as int,
                ).contains(x),
            forall|x: u64| keep@.contains(x) <==> seen@.contains(x) && all@.contains(x),
            forall|x: u64| removed@.contains(x) <==> seen@.contains(x) && !all@.contains(x),
        decreases changed.len() - j,
    {
        let entity: u64 = changed[j];
        let ghost so_far = seen@;
        proof {
            lemma_take_step(changed@, j as int);
            lemma_push(keep@, entity);
            lemma_push(removed@, entity);
        }
        if seen.insert(entity) {
            if all.contains(&entity) {
                keep.push(entity);
            } else {
                removed.push(entity);
            }
        }
        proof {
            assert forall|x: u64| #[trigger]
                seen@.contains(x) <==> before.contains(x) || changed@.take(
                    j as int + 1,
                ).contains(x) by {
                assert(so_far.contains(x) <==> before.contains(x) || changed@.take(
                    j as int,
                ).contains(x));
                assert(seen@.contains(x) <==> so_far.contains(x) || x == entity);
            }
        }
        j = j + 1;
    }
    proof {
        assert(changed@.take(changed.len() as int) == changed@);
        assert(keep@.to_set() =~= before.to_set().union(changed@.to_set()).intersect(all@));
        assert(removed@.to_set() =~= before.to_set().union(changed@.to_set()).difference(all@));
    }
    known.entities = keep;
    removed
}

/// The members of one more element of a list.
proof fn lemma_take_step(s: Seq<u64>, i: int)
    requires
        0 <= i < s.len(),
    ensures
        forall|x: u64| #[trigger] s.take(i + 1).contains(x) <==> s.take(i).contains(x) || s[i] == x,
{
    assert(s.take(i + 1) == s.take(i).push(s[i]));
    lemma_push(s.take(i), s[i]);
}

/// How a host camera projects the scene.
#[derive(Clone, Copy, Debug, PartialEq, Eq, Structural)]
pub enum Projection {
    Perspective,
    Orthographic,
}

/// A camera of the host.
#[derive(Clone, Copy, Debug, PartialEq, Eq, Structural)]
pub struct HostCamera {
    pub entity: u64,
    pub is_active: bool,
    /// Whether the camera renders through this renderer's graph.
    pub in_graph: bool,
    pub projection: Projection,
    /// The view mode that the application asked for, if it did.
    pub mode: Option<CameraMode>,
}

/// A camera that this renderer draws.
#[derive(Clone, Copy, Debug, PartialEq, Eq, Structural)]
pub struct ExtractedCamera {
    pub entity: u64,
    pub mode: Option<CameraMode>,
}

impl HostCamera {
    /// Whether this renderer draws the camera: it is active, renders
    /// through this renderer's graph and projects in perspective.
    pub open spec fn spec_is_drawn(self) -> bool {
        self.is_active && self.in_graph && self.projection == Projection::Perspective
    }

    pub open spec fn spec_extract(self) -> ExtractedCamera {
        ExtractedCamera { entity: self.entity, mode: self.mode }
    }
}

/// The cameras that this renderer draws, in the host's order.
pub open spec fn spec_cameras(cameras: Seq<HostCamera>) -> Seq<ExtractedCamera>
    decreases cameras.len(),
{
    if cameras.len() == 0 {
        Seq::empty()
    } else if cameras.last().spec_is_drawn() {
        spec_cameras(cameras.drop_last()).push(cameras.last().spec_extract())
    } else {
        spec_cameras(cameras.drop_last())
    }
}

/// Picks the cameras that this renderer draws.
pub fn cameras(host: &Vec<HostCamera>) -> (r: Vec<ExtractedCamera>)
    ensures
        r@ == spec_cameras(host@),
{
    let mut out: Vec<ExtractedCamera> = Vec::new();
    let mut i: usize = 0;
    while i < host.len()
        invariant
            i <= host.len(),
            out@ == spec_cameras(host@.take(i as int)),
        decreases host.len() - i,
    {
        proof {
            assert(host@.take(i as int + 1).drop_last() == host@.take(i as int));
            assert(host@.take(i as int + 1).last() == host@[i as int]);
        }
        let camera = host[i];
        let perspective = match camera.projection {
            Projection::Perspective => true,
            Projection::Orthographic => false,
        };
        if camera.is_active && camera.in_graph && perspective {
            out.push(ExtractedCamera { entity: camera.entity, mode: camera.mode });
        }
        i = i + 1;
    }
    proof {
        assert(host@.take(host.len() as int) == host@);
    }
    out
}

/// Four times pi.
pub const FOUR_PI: u64 = 823550;

/// A point light of the host.
#[derive(Clone, Copy, Debug, PartialEq, Eq, Structural)]
pub struct PointLight {
    pub entity: u64,
    /// Luminous power, in lumens.
    pub intensity: u32,
    pub color: Rgb,
    pub radius: u32,
    pub range: u32,
    /// Where the light is, in world space.
    pub translation: Vec3,
}

/// Luminous intensity of a point light: its power over the full solid
/// angle of four pi, rounded down.
pub open spec fn spec_lum_intensity(intensity: u32) -> u64 {
    (intensity * 65536 / 823550) as u64
}

impl PointLight {
    /// The light that the renderer makes of a host light: its colour times
    /// its luminous intensity is the radiance.
    pub open spec fn spec_light(self) -> Light {
        Light {
            kind: crate::light::LightKind::Point,
            position: self.translation,
            radius: self.radius,
            radiance: self.color.spec_scale(spec_lum_intensity(self.intensity)),
            range: self.range,
        }
    }

    pub fn light(&self) -> (r: Light)
        ensures
            r == self.spec_light(),
    {
        let lum_intensity: u64 = (self.intensity as u64) * 65536 / FOUR_PI;
        Light::point(self.translation, self.radius, self.color.scale(lum_intensity), self.range)
    }
}

/// The renderer's lights of a frame, each with the entity it belongs to,
/// in the host's order.
pub fn lights(host: &Vec<PointLight>) -> (items: Vec<(u64, Light)>)
    ensures
        items@.len() == host@.len(),
        forall|i: int|
            0 <= i < host@.len() ==> #[trigger] items@[i] == (
                host@[i].entity,
                host@[i].spec_light(),
            ),
{
    let mut items: Vec<(u64, Light)> = Vec::new();
    let mut i: usize = 0;
    while i < host.len()
        invariant
            i <= host.len(),
            items@.len() == i,
            forall|k: int|
                0 <= k < i ==> #[trigger] items@[k] == (host@[k].entity, host@[k].spec_light()),
        decreases host.len() - i,
    {
        items.push((host[i].entity, host[i].light()));
        i = i + 1;
    }
    items
}

/// The sun as the application sets it.
#[derive(Clone, Copy, Debug, PartialEq, Eq, Structural)]
pub struct StrolleSun {
    /// Direction towards the sun, a unit vector.
    pub direction: Vec3,
}

/// The sun of a frame.
#[derive(Clone, Copy, Debug, PartialEq, Eq, Structural)]
pub struct ExtractedSun {
    pub sun: Option<StrolleSun>,
}

/// Hands the sun of a frame on to the renderer.
pub fn sun(host: &StrolleSun) -> (r: ExtractedSun)
    ensures
        r.sun == Some(*host),
{
    ExtractedSun { sun: Some(*host) }
}

} // verus!
