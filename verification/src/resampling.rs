//! Temporal and spatial resampling of one pixel's reservoir.
//!
//! Both reuse reservoirs that belong elsewhere: the same pixel a frame ago,
//! or a neighbouring pixel now. A reservoir is reused only if the surface it
//! was made for is similar enough to the pixel's own.

use vstd::prelude::*;
use crate::camera::Camera;
use crate::fixed::{distance, spec_abs, spec_saturate};
use crate::image::TexRgba32;
use crate::normal::Vec3;
use crate::reservoir::{scale_draw, spec_merge_weight, spec_scale_draw, DiReservoir, DiSample};
use crate::surface::{spec_similarity, Surface, SurfaceMap};
use crate::uvec::{UVec2, UVec4};

verus! {

/// How many candidates a reservoir may stand for after temporal
/// resampling, unless configured otherwise.
pub const DEFAULT_MAX_M: u32 = 20;

/// The similarity from which on a reservoir is reused, unless configured
/// otherwise: one half.
pub const DEFAULT_SIMILARITY_THRESHOLD: u64 = 32768;

/// How far away, in pixels along each axis, spatial resampling looks for
/// neighbours, unless configured otherwise.
pub const DEFAULT_SPATIAL_RADIUS: u32 = 16;

/// How many neighbours spatial resampling looks at per pixel.
pub const SPATIAL_NEIGHBORS: u32 = 5;

/// Settings of the two resampling passes.
#[derive(Clone, Copy, Debug, PartialEq, Eq, Structural)]
pub struct ResamplingConfig {
    /// Cap on the number of candidates that history may stand for.
    pub max_m: u32,
    /// Similarity below which a reservoir is not reused, Q16.16.
    pub similarity_threshold: u64,
    /// Search radius of spatial resampling, in pixels.
    pub spatial_radius: u32,
}

impl ResamplingConfig {
    pub fn new() -> (r: ResamplingConfig)
        ensures
            r == (ResamplingConfig {
                max_m: DEFAULT_MAX_M,
                similarity_threshold: DEFAULT_SIMILARITY_THRESHOLD,
                spatial_radius: DEFAULT_SPATIAL_RADIUS,
            }),
    {
        ResamplingConfig {
            max_m: DEFAULT_MAX_M,
            similarity_threshold: DEFAULT_SIMILARITY_THRESHOLD,
            spatial_radius: DEFAULT_SPATIAL_RADIUS,
        }
    }

    /// Whether a reservoir made for `other` may be reused at `surface`:
    /// the similarity is not zero and not below the threshold.
    pub open spec fn spec_reusable(&self, surface: Surface, other: Surface) -> bool {
        spec_similarity(surface, other) > 0 && spec_similarity(surface, other)
            >= self.similarity_threshold
    }

    pub fn reusable(&self, surface: &Surface, other: &Surface) -> (r: bool)
        ensures
            r == self.spec_reusable(*surface, *other),
            surface.is_sky() || other.is_sky() ==> !r,
    {
        let score: u64 = surface.evaluate_similarity_to(other);
        score > 0 && score >= self.similarity_threshold
    }
}

/// Where the surface seen through a pixel was on screen a frame ago.
#[derive(Clone, Copy, Debug, PartialEq, Eq, Structural)]
pub struct Reprojection {
    pub prev_pos: UVec2,
    /// Whether the surface was on screen at all.
    pub valid: bool,
}

impl Reprojection {
    /// The reprojection that a texel holds: the previous position in the
    /// first two words, and validity as a non-zero third word.
    pub open spec fn spec_unpack(d0: UVec4) -> Reprojection {
        Reprojection { prev_pos: UVec2 { x: d0.x, y: d0.y }, valid: d0.z != 0 }
    }

    pub open spec fn spec_pack(self) -> UVec4 {
        UVec4 {
            x: self.prev_pos.x,
            y: self.prev_pos.y,
            z: if self.valid {
                1
            } else {
                0
            },
            w: 0,
        }
    }

    pub fn unpack(d0: UVec4) -> (r: Reprojection)
        ensures
            r == Self::spec_unpack(d0),
    {
        Reprojection { prev_pos: UVec2 { x: d0.x, y: d0.y }, valid: d0.z != 0 }
    }

    pub fn pack(&self) -> (r: UVec4)
        ensures
            r == self.spec_pack(),
            Self::spec_unpack(r) == *self,
    {
        UVec4 {
            x: self.prev_pos.x,
            y: self.prev_pos.y,
            z: if self.valid {
                1
            } else {
                0
            },
            w: 0,
        }
    }
}

/// Read access to the texture that holds one reprojection per pixel.
#[derive(Clone, Copy)]
pub struct ReprojectionMap<'a> {
    tex: TexRgba32<'a>,
}

impl<'a> ReprojectionMap<'a> {
    pub closed spec fn spec_tex(&self) -> TexRgba32<'a> {
        self.tex
    }

    /// The map that reads a texture.
    pub closed spec fn spec_new(tex: TexRgba32<'a>) -> Self {
        Self { tex }
    }

    pub fn new(tex: TexRgba32<'a>) -> (r: Self)
        ensures
            r.spec_tex() == tex,
            r == Self::spec_new(tex),
    {
        Self { tex }
    }

    /// A map reads the texture that it was made for.
    pub proof fn lemma_new(tex: TexRgba32<'a>)
        ensures
            Self::spec_new(tex).spec_tex() == tex,
    {
    }

    /// Reprojection of a pixel. Outside the texture none is valid.
    pub fn get(&self, screen_pos: UVec2) -> (r: Reprojection)
        ensures
            r == Reprojection::spec_unpack(self.spec_tex().spec_read(screen_pos)),
            !self.spec_tex().spec_contains(screen_pos) ==> !r.valid,
    {
        Reprojection::unpack(self.tex.read(screen_pos))
    }
}

/// A reservoir together with the target function of its kept sample at the
/// pixel that is being resampled.
#[derive(Clone, Copy, Debug, PartialEq, Eq, Structural)]
pub struct Scored {
    pub reservoir: DiReservoir,
    pub p_hat: u64,
}

/// What a pixel knows of itself a frame ago.
#[derive(Clone, Copy, Debug, PartialEq, Eq, Structural)]
pub struct History {
    /// Whether the reprojection map has a previous position for the pixel.
    pub valid: bool,
    /// The surface at the previous position, a frame ago.
    pub surface: Surface,
    /// The reservoir at the previous position, a frame ago.
    pub scored: Scored,
}

/// What is found where a pixel's surface was a frame ago.
#[derive(Clone, Copy, Debug, PartialEq, Eq, Structural)]
pub struct Reprojected {
    /// Whether there is a previous position, and it lies in the viewport.
    pub valid: bool,
    pub surface: Surface,
    pub reservoir: DiReservoir,
}

impl Reprojected {
    /// Nothing was found.
    pub open spec fn spec_none() -> Reprojected {
        Reprojected {
            valid: false,
            surface: Surface { normal: Vec3 { x: 0, y: 0, z: 0 }, depth: 0, roughness: 0 },
            reservoir: DiReservoir::spec_empty(),
        }
    }

    /// The history that this makes with the target function of the found
    /// reservoir's sample at the pixel.
    pub fn with_p_hat(self, p_hat: u64) -> (r: History)
        ensures
            r == (History {
                valid: self.valid,
                surface: self.surface,
                scored: Scored { reservoir: self.reservoir, p_hat },
            }),
    {
        History {
            valid: self.valid,
            surface: self.surface,
            scored: Scored { reservoir: self.reservoir, p_hat },
        }
    }
}

/// What temporal resampling finds for a pixel: the surface and the
/// reservoir of the previous frame at the position that the reprojection
/// map names, if it names one inside the viewport.
pub open spec fn spec_reproject(
    camera: Camera,
    screen_pos: UVec2,
    reprojection_map: ReprojectionMap,
    prev_surface_map: SurfaceMap,
    prev_reservoirs: Seq<UVec4>,
) -> Reprojected {
    let reprojection = Reprojection::spec_unpack(reprojection_map.spec_tex().spec_read(screen_pos));
    if reprojection.valid && camera.spec_contains(reprojection.prev_pos) {
        Reprojected {
            valid: true,
            surface: prev_surface_map.spec_get(reprojection.prev_pos),
            reservoir: DiReservoir::spec_read(
                prev_reservoirs,
                camera.spec_screen_to_idx(reprojection.prev_pos),
            ),
        }
    } else {
        Reprojected::spec_none()
    }
}

/// Looks up a pixel's history through the reprojection map.
pub fn reproject(
    camera: &Camera,
    screen_pos: UVec2,
    reprojection_map: ReprojectionMap,
    prev_surface_map: SurfaceMap,
    prev_reservoirs: &Vec<UVec4>,
) -> (r: Reprojected)
    ensures
        r == spec_reproject(
            *camera,
            screen_pos,
            reprojection_map,
            prev_surface_map,
            prev_reservoirs@,
        ),
{
    let reprojection = reprojection_map.get(screen_pos);
    if reprojection.valid && camera.contains(reprojection.prev_pos) {
        Reprojected {
            valid: true,
            surface: prev_surface_map.get(reprojection.prev_pos),
            reservoir: DiReservoir::read(
                prev_reservoirs,
                camera.screen_to_idx(reprojection.prev_pos),
            ),
        }
    } else {
        Reprojected {
            valid: false,
            surface: Surface { normal: Vec3 { x: 0, y: 0, z: 0 }, depth: 0, roughness: 0 },
            reservoir: DiReservoir::empty(),
        }
    }
}

/// The previous frame's reservoir as temporal resampling takes it in: cut
/// down to the cap, or empty where history cannot be reused.
pub open spec fn spec_usable_history(cfg: ResamplingConfig, surface: Surface, history: History)
    -> DiReservoir {
    if history.valid && cfg.spec_reusable(surface, history.surface) {
        history.scored.reservoir.spec_clamp(cfg.max_m)
    } else {
        DiReservoir::spec_empty()
    }
}

/// The reservoir that temporal resampling leaves for a pixel.
pub open spec fn spec_temporal(
    cfg: ResamplingConfig,
    surface: Surface,
    fresh: Scored,
    history: History,
    random: u64,
) -> DiReservoir {
    let prev = spec_usable_history(cfg, surface, history);
    let weight = spec_merge_weight(history.scored.p_hat, prev.w, prev.m);
    let draw = spec_scale_draw(random, spec_saturate(fresh.reservoir.w_sum + weight) as u64);
    let p_hat = if draw < weight {
        history.scored.p_hat
    } else {
        fresh.p_hat
    };
    fresh.reservoir.spec_merge(prev, history.scored.p_hat, draw as u64).spec_clamp(
        cfg.max_m,
    ).spec_normalize(p_hat)
}

/// Merges this frame's fresh reservoir of a pixel with the pixel's
/// history. History is left out where the reprojection is not valid or the
/// previous surface is not similar enough; what is taken in is cut down to
/// the cap first. The result stands for no more candidates than the cap
/// allows, whatever the history held.
pub fn temporal_resample(
    cfg: &ResamplingConfig,
    surface: &Surface,
    fresh: &Scored,
    history: &History,
    random: u64,
) -> (r: DiReservoir)
    ensures
        r == spec_temporal(*cfg, *surface, *fresh, *history, random),
        r.m <= cfg.max_m,
        !history.valid || !cfg.spec_reusable(*surface, history.surface) ==> r
            == fresh.reservoir.spec_clamp(cfg.max_m).spec_normalize(fresh.p_hat),
{
    let mut prev: DiReservoir = DiReservoir::empty();
    if history.valid && cfg.reusable(surface, &history.surface) {
        prev = history.scored.reservoir;
        prev.clamp_m(cfg.max_m);
    }
    let weight: u64 = prev.merge_weight(history.scored.p_hat);
    let draw: u64 = scale_draw(random, fresh.reservoir.w_sum.saturating_add(weight));
    let mut r: DiReservoir = fresh.reservoir;
    let took: bool = r.merge(&prev, history.scored.p_hat, draw);
    let p_hat: u64 = if took {
        history.scored.p_hat
    } else {
        fresh.p_hat
    };
    r.clamp_m(cfg.max_m);
    r.normalize(p_hat);
    r
}

/// However long history has been accumulated, and whatever came of it, a
/// temporally resampled reservoir stands for no more candidates than the
/// cap allows.
pub proof fn lemma_temporal_capped(
    cfg: ResamplingConfig,
    surface: Surface,
    fresh: Scored,
    history: History,
    random: u64,
)
    ensures
        spec_temporal(cfg, surface, fresh, history, random).m <= cfg.max_m,
{
}

/// What a pixel holds frame after frame where nothing moves and one light
/// is all that it sees. The fresh reservoir holds candidates of that light
/// alone, each weighted by the light's target function, which is not zero.
/// History, where there is any, holds the same light with a weight of one,
/// as the frame before left it. Counts and sums stay within their types:
/// the cap is at least one, the fresh count and the cap together fit into
/// `u32`, and the target function times their sum fits into `u64`.
pub open spec fn spec_one_static_light(cfg: ResamplingConfig, fresh: Scored, history: History)
    -> bool {
    &&& 1 <= cfg.max_m
    &&& 1 <= fresh.reservoir.m
    &&& fresh.reservoir.m + cfg.max_m <= u32::MAX
    &&& fresh.p_hat > 0
    &&& fresh.p_hat * (fresh.reservoir.m + cfg.max_m) <= u64::MAX
    &&& fresh.reservoir.w_sum == fresh.p_hat * fresh.reservoir.m
    &&& history.scored.p_hat == fresh.p_hat
    &&& history.scored.reservoir.m > 0 ==> history.scored.reservoir.sample
        == fresh.reservoir.sample && history.scored.reservoir.w == 65536
}

/// Where nothing moves and one light is all that a pixel sees, temporal
/// resampling settles at once and stays: the reservoir keeps that light
/// with a weight of exactly one, frame after frame, so the pixel resolves to
/// the very radiance that the light sends. What it leaves is history of
/// the kind that the next frame needs to stay settled.
pub proof fn lemma_static_light_is_stable(
    cfg: ResamplingConfig,
    surface: Surface,
    fresh: Scored,
    history: History,
    random: u64,
)
    requires
        spec_one_static_light(cfg, fresh, history),
    ensures
        ({
            let r = spec_temporal(cfg, surface, fresh, history, random);
            &&& r.sample == fresh.reservoir.sample
            &&& r.w == 65536
            &&& 1 <= r.m <= cfg.max_m
            &&& r.w_sum == fresh.p_hat * r.m
        }),
{
    let p = fresh.p_hat;
    let cap = cfg.max_m;
    let f = fresh.reservoir.m;
    let prev = spec_usable_history(cfg, surface, history);
    let n = prev.m;
    assert(n <= cap);
    assert(n > 0 ==> prev.w == 65536 && prev.sample == fresh.reservoir.sample);
    let per = spec_saturate(crate::fixed::spec_mul(p as int, prev.w as int));
    let weight = spec_merge_weight(p, prev.w, prev.m);
    assert(0 <= p * n <= p * (f + cap)) by (nonlinear_arith)
        requires
            0 <= n <= cap,
            f >= 1,
            p > 0,
    ;
    if n == 0 {
        assert(per * 0 == 0);
        assert(p * n == 0) by (nonlinear_arith)
            requires
                n == 0,
        ;
    } else {
        assert(per == p);
        assert(per * n == p * n);
    }
    assert(weight == p * n);
    assert(p * f + p * n == p * (f + n)) by (nonlinear_arith);
    assert(p * (f + n) <= p * (f + cap)) by (nonlinear_arith)
        requires
            n <= cap,
            p > 0,
    ;
    let draw = spec_scale_draw(random, spec_saturate(fresh.reservoir.w_sum + weight) as u64);
    let merged = fresh.reservoir.spec_merge(prev, p, draw as u64);
    assert(merged.w_sum == p * (f + n));
    assert(merged.m == f + n);
    assert(merged.sample == fresh.reservoir.sample);
    let cut = merged.spec_clamp(cap);
    if merged.m > cap {
        assert((p * (f + n)) * cap / ((f + n) as int) == p * cap) by (nonlinear_arith)
            requires
                f + n > 0,
                p > 0,
                cap >= 0,
        ;
        assert(p * cap <= p * (f + cap)) by (nonlinear_arith)
            requires
                p > 0,
                f >= 1,
        ;
    }
    assert(cut.w_sum == p * cut.m);
    assert(1 <= cut.m <= cap);
    let m = cut.m;
    assert((p * m) * 65536 / (m * p) == 65536) by (nonlinear_arith)
        requires
            p > 0,
            m > 0,
    ;
}

/// What one frame brings to a pixel's temporal resampling.
#[derive(Clone, Copy, Debug, PartialEq, Eq, Structural)]
pub struct Frame {
    /// The surface that the pixel shows in this frame.
    pub surface: Surface,
    /// This frame's fresh reservoir.
    pub fresh: Scored,
    /// Whether the reprojection map has a previous position for the pixel.
    pub valid: bool,
    /// The surface at the previous position, a frame ago.
    pub prev_surface: Surface,
    /// Target function, at the pixel, of the sample that history kept.
    pub history_p_hat: u64,
    pub random: u64,
}

impl Frame {
    /// The pixel's history in this frame, given the reservoir that the
    /// frame before left.
    pub open spec fn spec_history(self, before: DiReservoir) -> History {
        History {
            valid: self.valid,
            surface: self.prev_surface,
            scored: Scored { reservoir: before, p_hat: self.history_p_hat },
        }
    }

    /// Whether the frame shows one static light: see
    /// `spec_one_static_light`, of which this is the part that does not
    /// speak of history.
    pub open spec fn spec_is_static(self, cfg: ResamplingConfig, sample: DiSample, p_hat: u64)
        -> bool {
        &&& 1 <= cfg.max_m
        &&& 1 <= self.fresh.reservoir.m
        &&& self.fresh.reservoir.m + cfg.max_m <= u32::MAX
        &&& p_hat > 0
        &&& p_hat * (self.fresh.reservoir.m + cfg.max_m) <= u64::MAX
        &&& self.fresh.reservoir.w_sum == p_hat * self.fresh.reservoir.m
        &&& self.fresh.reservoir.sample == sample
        &&& self.fresh.p_hat == p_hat
        &&& self.history_p_hat == p_hat
    }
}

/// The reservoir that a pixel holds after a run of frames, each frame
/// taking what the frame before left as its history.
pub open spec fn spec_accumulate(cfg: ResamplingConfig, start: DiReservoir, frames: Seq<Frame>)
    -> DiReservoir
    decreases frames.len(),
{
    if frames.len() == 0 {
        start
    } else {
        let before = spec_accumulate(cfg, start, frames.drop_last());
        let frame = frames.last();
        spec_temporal(cfg, frame.surface, frame.fresh, frame.spec_history(before), frame.random)
    }
}

/// Runs temporal resampling of one pixel over a run of frames. After any
/// number of frames, one or ten thousand, the reservoir stands for no more
/// candidates than the cap allows.
pub fn accumulate(cfg: &ResamplingConfig, start: DiReservoir, frames: &Vec<Frame>) -> (r:
    DiReservoir)
    ensures
        r == spec_accumulate(*cfg, start, frames@),
        frames@.len() > 0 ==> r.m <= cfg.max_m,
{
    let mut r: DiReservoir = start;
    let mut i: usize = 0;
    while i < frames.len()
        invariant
            i <= frames.len(),
            r == spec_accumulate(*cfg, start, frames@.take(i as int)),
            i > 0 ==> r.m <= cfg.max_m,
        decreases frames.len() - i,
    {
        proof {
            assert(frames@.take(i as int + 1).drop_last() == frames@.take(i as int));
            assert(frames@.take(i as int + 1).last() == frames@[i as int]);
        }
        let frame = frames[i];
        let history = History {
            valid: frame.valid,
            surface: frame.prev_surface,
            scored: Scored { reservoir: r, p_hat: frame.history_p_hat },
        };
        r = temporal_resample(cfg, &frame.surface, &frame.fresh, &history, frame.random);
        i = i + 1;
    }
    proof {
        assert(frames@.take(frames.len() as int) == frames@);
    }
    r
}

/// However many frames are accumulated, the reservoir never stands for
/// more candidates than the cap allows.
pub proof fn lemma_accumulate_capped(cfg: ResamplingConfig, start: DiReservoir, frames: Seq<Frame>)
    requires
        frames.len() > 0,
    ensures
        spec_accumulate(cfg, start, frames).m <= cfg.max_m,
{
}

/// Under one static light a pixel's reservoir is settled after the first
/// frame and after every frame that follows: it holds the light with a
/// weight of exactly one. So what the pixel resolves to does not change
/// from any frame to the next. The run starts without history, or with
/// history that is settled on the light.
pub proof fn lemma_accumulate_static(
    cfg: ResamplingConfig,
    start: DiReservoir,
    frames: Seq<Frame>,
    sample: DiSample,
    p_hat: u64,
)
    requires
        frames.len() > 0,
        start.m > 0 ==> start.sample == sample && start.w == 65536,
        forall|i: int| 0 <= i < frames.len() ==> (#[trigger] frames[i]).spec_is_static(
            cfg,
            sample,
            p_hat,
        ),
    ensures
        spec_accumulate(cfg, start, frames).sample == sample,
        spec_accumulate(cfg, start, frames).w == 65536,
        1 <= spec_accumulate(cfg, start, frames).m <= cfg.max_m,
        spec_accumulate(cfg, start, frames).w_sum == p_hat * spec_accumulate(
            cfg,
            start,
            frames,
        ).m,
    decreases frames.len(),
{
    let earlier = frames.drop_last();
    let frame = frames.last();
    assert(frame == frames[frames.len() - 1]);
    if earlier.len() > 0 {
        assert forall|i: int| 0 <= i < earlier.len() implies (#[trigger] earlier[i]).spec_is_static(
            cfg,
            sample,
            p_hat,
        ) by {
            assert(earlier[i] == frames[i]);
        }
        lemma_accumulate_static(cfg, start, earlier, sample, p_hat);
    }
    let before = spec_accumulate(cfg, start, earlier);
    lemma_static_light_is_stable(
        cfg,
        frame.surface,
        frame.fresh,
        frame.spec_history(before),
        frame.random,
    );
}

/// Where a pixel has no candidate and no history, temporal resampling
/// leaves it a reservoir that stands for nothing and weighs nothing.
pub proof fn lemma_temporal_of_nothing(
    cfg: ResamplingConfig,
    surface: Surface,
    fresh: Scored,
    history: History,
    random: u64,
)
    requires
        fresh.reservoir.m == 0,
        history.scored.reservoir.m == 0,
    ensures
        spec_temporal(cfg, surface, fresh, history, random).m == 0,
        spec_temporal(cfg, surface, fresh, history, random).w == 0,
{
    let prev = spec_usable_history(cfg, surface, history);
    assert(prev.m == 0);
    let per = spec_saturate(crate::fixed::spec_mul(history.scored.p_hat as int, prev.w as int));
    assert(per * 0 == 0);
}

/// A neighbouring pixel as spatial resampling sees it.
#[derive(Clone, Copy, Debug, PartialEq, Eq, Structural)]
pub struct Neighbor {
    pub screen_pos: UVec2,
    pub surface: Surface,
    /// The neighbour's reservoir, with the target function of its kept
    /// sample at the pixel that is being resampled.
    pub scored: Scored,
    /// The random number that decides whether the neighbour's sample is
    /// kept.
    pub random: u64,
}

/// Whether a position is a neighbour in reach: another pixel, no further
/// away than the search radius along either axis.
pub open spec fn spec_in_reach(cfg: ResamplingConfig, screen_pos: UVec2, other: UVec2) -> bool {
    &&& other != screen_pos
    &&& spec_abs(other.x - screen_pos.x) <= cfg.spatial_radius
    &&& spec_abs(other.y - screen_pos.y) <= cfg.spatial_radius
}

/// Whether spatial resampling takes a neighbour in: it is in reach and its
/// surface is similar enough. Others are skipped altogether.
pub open spec fn spec_takes(
    cfg: ResamplingConfig,
    screen_pos: UVec2,
    surface: Surface,
    neighbor: Neighbor,
) -> bool {
    spec_in_reach(cfg, screen_pos, neighbor.screen_pos) && cfg.spec_reusable(
        surface,
        neighbor.surface,
    )
}

/// State of spatial resampling between two neighbours.
#[derive(Clone, Copy, Debug, PartialEq, Eq, Structural)]
pub struct Spatial {
    pub scored: Scored,
    /// Whether any neighbour was taken in.
    pub merged: bool,
}

/// The state after one neighbour.
pub open spec fn spec_spatial_step(
    cfg: ResamplingConfig,
    screen_pos: UVec2,
    surface: Surface,
    state: Spatial,
    neighbor: Neighbor,
) -> Spatial {
    if spec_takes(cfg, screen_pos, surface, neighbor) {
        let other = neighbor.scored.reservoir;
        let weight = spec_merge_weight(neighbor.scored.p_hat, other.w, other.m);
        let draw = spec_scale_draw(
            neighbor.random,
            spec_saturate(state.scored.reservoir.w_sum + weight) as u64,
        );
        Spatial {
            scored: Scored {
                reservoir: state.scored.reservoir.spec_merge(
                    other,
                    neighbor.scored.p_hat,
                    draw as u64,
                ),
                p_hat: if draw < weight {
                    neighbor.scored.p_hat
                } else {
                    state.scored.p_hat
                },
            },
            merged: true,
        }
    } else {
        state
    }
}

/// The state after the neighbours from the `i`-th on.
pub open spec fn spec_spatial_from(
    cfg: ResamplingConfig,
    screen_pos: UVec2,
    surface: Surface,
    state: Spatial,
    neighbors: Seq<Neighbor>,
    i: int,
) -> Spatial
    decreases neighbors.len() - i,
{
    if i < 0 || i >= neighbors.len() {
        state
    } else {
        spec_spatial_from(
            cfg,
            screen_pos,
            surface,
            spec_spatial_step(cfg, screen_pos, surface, state, neighbors[i]),
            neighbors,
            i + 1,
        )
    }
}

/// The reservoir that spatial resampling leaves for a pixel: its own where
/// no neighbour was taken in, else the merged one with `w` set anew.
pub open spec fn spec_spatial(
    cfg: ResamplingConfig,
    screen_pos: UVec2,
    surface: Surface,
    current: Scored,
    neighbors: Seq<Neighbor>,
) -> DiReservoir {
    let end = spec_spatial_from(
        cfg,
        screen_pos,
        surface,
        Spatial { scored: current, merged: false },
        neighbors,
        0,
    );
    if end.merged {
        end.scored.reservoir.spec_normalize(end.scored.p_hat)
    } else {
        current.reservoir
    }
}

/// Whether a position is a neighbour in reach of a pixel.
pub fn in_reach(cfg: &ResamplingConfig, screen_pos: UVec2, other: UVec2) -> (r: bool)
    ensures
        r == spec_in_reach(*cfg, screen_pos, other),
        cfg.spatial_radius == 0 ==> !r,
{
    let dx: u32 = distance(other.x, screen_pos.x);
    let dy: u32 = distance(other.y, screen_pos.y);
    (dx != 0 || dy != 0) && dx <= cfg.spatial_radius && dy <= cfg.spatial_radius
}

/// One coordinate of a position near a pixel: the pixel's own, moved by
/// an offset that `random` picks from `[-radius, radius]`, and kept on the
/// grid of `u32` coordinates.
pub open spec fn spec_nearby(coord: u32, radius: u32, random: u32) -> int {
    let moved = coord + (random as int) % (2 * radius + 1) - radius;
    if moved < 0 {
        0
    } else if moved > u32::MAX {
        u32::MAX as int
    } else {
        moved
    }
}

fn nearby(coord: u32, radius: u32, random: u32) -> (r: u32)
    ensures
        r == spec_nearby(coord, radius, random),
        spec_abs(r - coord) <= radius,
{
    let span: u64 = 2 * (radius as u64) + 1;
    let moved: u64 = (coord as u64) + (random as u64) % span;
    if moved < radius as u64 {
        0
    } else if moved - radius as u64 > u32::MAX as u64 {
        u32::MAX
    } else {
        (moved - radius as u64) as u32
    }
}

/// Picks a position within the search radius of a pixel, one random number
/// per axis. The position may be the pixel's own, and may lie outside the
/// viewport.
pub fn neighbor_pos(cfg: &ResamplingConfig, screen_pos: UVec2, random: UVec2) -> (r: UVec2)
    ensures
        r.x == spec_nearby(screen_pos.x, cfg.spatial_radius, random.x),
        r.y == spec_nearby(screen_pos.y, cfg.spatial_radius, random.y),
        r == screen_pos || spec_in_reach(*cfg, screen_pos, r),
{
    UVec2 {
        x: nearby(screen_pos.x, cfg.spatial_radius, random.x),
        y: nearby(screen_pos.y, cfg.spatial_radius, random.y),
    }
}

/// What spatial resampling finds at a position near a pixel: nothing
/// outside the viewport, else the position with its surface and reservoir.
pub open spec fn spec_gather(
    camera: Camera,
    at: UVec2,
    surface_map: SurfaceMap,
    curr_reservoirs: Seq<UVec4>,
) -> Option<(UVec2, Surface, DiReservoir)> {
    if camera.spec_contains(at) {
        Some(
            (
                at,
                surface_map.spec_get(at),
                DiReservoir::spec_read(curr_reservoirs, camera.spec_screen_to_idx(at)),
            ),
        )
    } else {
        None
    }
}

/// Picks a position near a pixel and reads what is there.
pub fn gather(
    cfg: &ResamplingConfig,
    camera: &Camera,
    screen_pos: UVec2,
    random: UVec2,
    surface_map: SurfaceMap,
    curr_reservoirs: &Vec<UVec4>,
) -> (r: Option<(UVec2, Surface, DiReservoir)>)
    ensures
        r == spec_gather(
            *camera,
            UVec2 {
                x: spec_nearby(screen_pos.x, cfg.spatial_radius, random.x) as u32,
                y: spec_nearby(screen_pos.y, cfg.spatial_radius, random.y) as u32,
            },
            surface_map,
            curr_reservoirs@,
        ),
{
    let at = neighbor_pos(cfg, screen_pos, random);
    if camera.contains(at) {
        Some(
            (
                at,
                surface_map.get(at),
                DiReservoir::read(curr_reservoirs, camera.screen_to_idx(at)),
            ),
        )
    } else {
        None
    }
}

/// Takes one neighbour in, or skips it.
pub fn spatial_step(
    cfg: &ResamplingConfig,
    screen_pos: UVec2,
    surface: &Surface,
    state: Spatial,
    neighbor: &Neighbor,
) -> (r: Spatial)
    ensures
        r == spec_spatial_step(*cfg, screen_pos, *surface, state, *neighbor),
{
    if in_reach(cfg, screen_pos, neighbor.screen_pos) && cfg.reusable(surface, &neighbor.surface) {
        let weight: u64 = neighbor.scored.reservoir.merge_weight(neighbor.scored.p_hat);
        let draw: u64 = scale_draw(
            neighbor.random,
            state.scored.reservoir.w_sum.saturating_add(weight),
        );
        let mut reservoir: DiReservoir = state.scored.reservoir;
        let took: bool = reservoir.merge(&neighbor.scored.reservoir, neighbor.scored.p_hat, draw);
        Spatial {
            scored: Scored {
                reservoir,
                p_hat: if took {
                    neighbor.scored.p_hat
                } else {
                    state.scored.p_hat
                },
            },
            merged: true,
        }
    } else {
        state
    }
}

/// Merges a pixel's reservoir with those of its neighbours. A neighbour
/// that is out of reach or whose surface is not similar enough is skipped.
/// Where every neighbour is skipped, and so whenever the search radius is
/// zero, the pixel's reservoir comes back as it is.
pub fn spatial_resample(
    cfg: &ResamplingConfig,
    screen_pos: UVec2,
    surface: &Surface,
    current: &Scored,
    neighbors: &Vec<Neighbor>,
) -> (r: DiReservoir)
    ensures
        r == spec_spatial(*cfg, screen_pos, *surface, *current, neighbors@),
        cfg.spatial_radius == 0 ==> r == current.reservoir,
        (forall|i: int|
            0 <= i < neighbors@.len() ==> !cfg.spec_reusable(
                *surface,
                (#[trigger] neighbors@[i]).surface,
            )) ==> r == current.reservoir,
{
    let ghost start = Spatial { scored: *current, merged: false };
    let mut state: Spatial = Spatial { scored: *current, merged: false };
    let mut i: usize = 0;
    while i < neighbors.len()
        invariant
            i <= neighbors.len(),
            spec_spatial_from(*cfg, screen_pos, *surface, start, neighbors@, 0)
                == spec_spatial_from(*cfg, screen_pos, *surface, state, neighbors@, i as int),
        decreases neighbors.len() - i,
    {
        state = spatial_step(cfg, screen_pos, surface, state, &neighbors[i]);
        i = i + 1;
    }
    proof {
        lemma_spatial_skips(*cfg, screen_pos, *surface, start, neighbors@, 0);
    }
    if state.merged {
        let mut reservoir: DiReservoir = state.scored.reservoir;
        reservoir.normalize(state.scored.p_hat);
        reservoir
    } else {
        current.reservoir
    }
}

/// Where no neighbour from the `i`-th on is taken in, the state stays as
/// it is.
pub proof fn lemma_spatial_skips(
    cfg: ResamplingConfig,
    screen_pos: UVec2,
    surface: Surface,
    state: Spatial,
    neighbors: Seq<Neighbor>,
    i: int,
)
    requires
        0 <= i,
    ensures
        (forall|j: int|
            i <= j < neighbors.len() ==> !spec_takes(
                cfg,
                screen_pos,
                surface,
                #[trigger] neighbors[j],
            )) ==> spec_spatial_from(cfg, screen_pos, surface, state, neighbors, i) == state,
    decreases neighbors.len() - i,
{
    if i < neighbors.len() {
        lemma_spatial_skips(cfg, screen_pos, surface, state, neighbors, i + 1);
    }
}

/// Neighbours whose reservoirs stand for nothing leave a reservoir as it
/// is, whether they are taken in or not.
pub proof fn lemma_spatial_keeps(
    cfg: ResamplingConfig,
    screen_pos: UVec2,
    surface: Surface,
    state: Spatial,
    neighbors: Seq<Neighbor>,
    i: int,
)
    requires
        0 <= i,
        forall|j: int| 0 <= j < neighbors.len() ==> (#[trigger] neighbors[j]).scored.reservoir.m == 0,
    ensures
        spec_spatial_from(cfg, screen_pos, surface, state, neighbors, i).scored.reservoir
            == state.scored.reservoir,
    decreases neighbors.len() - i,
{
    if i < neighbors.len() {
        let neighbor = neighbors[i];
        let next = spec_spatial_step(cfg, screen_pos, surface, state, neighbor);
        let other = neighbor.scored.reservoir;
        let per = spec_saturate(
            crate::fixed::spec_mul(neighbor.scored.p_hat as int, other.w as int),
        );
        assert(per * 0 == 0);
        assert(next.scored.reservoir == state.scored.reservoir);
        lemma_spatial_keeps(cfg, screen_pos, surface, next, neighbors, i + 1);
    }
}

/// Where neither a pixel nor any of its neighbours has seen a candidate,
/// spatial resampling leaves the pixel a reservoir that stands for nothing
/// and weighs nothing.
pub proof fn lemma_spatial_of_nothing(
    cfg: ResamplingConfig,
    screen_pos: UVec2,
    surface: Surface,
    current: Scored,
    neighbors: Seq<Neighbor>,
)
    requires
        current.reservoir.m == 0,
        current.reservoir.w == 0,
        forall|j: int| 0 <= j < neighbors.len() ==> (#[trigger] neighbors[j]).scored.reservoir.m == 0,
    ensures
        spec_spatial(cfg, screen_pos, surface, current, neighbors).m == 0,
        spec_spatial(cfg, screen_pos, surface, current, neighbors).w == 0,
{
    lemma_spatial_keeps(
        cfg,
        screen_pos,
        surface,
        Spatial { scored: current, merged: false },
        neighbors,
        0,
    );
}

/// A neighbour of a pixel that is settled on one light, as far as that
/// pixel is concerned: where its reservoir stands for anything, it stands
/// for no more than the cap allows and holds the same light with a weight
/// of one, and the target function of that light at the pixel is `p_hat`.
pub open spec fn spec_settled_neighbor(
    cfg: ResamplingConfig,
    sample: DiSample,
    p_hat: u64,
    neighbor: Neighbor,
) -> bool {
    &&& neighbor.scored.reservoir.m <= cfg.max_m
    &&& neighbor.scored.reservoir.m > 0 ==> {
        &&& neighbor.scored.reservoir.sample == sample
        &&& neighbor.scored.reservoir.w == 65536
        &&& neighbor.scored.p_hat == p_hat
    }
}

/// Taking in settled neighbours from the `i`-th on keeps a reservoir on
/// its light, with a sum of weights of the target function times the
/// count.
proof fn lemma_spatial_settled_from(
    cfg: ResamplingConfig,
    screen_pos: UVec2,
    surface: Surface,
    state: Spatial,
    neighbors: Seq<Neighbor>,
    i: int,
)
    requires
        0 <= i <= neighbors.len(),
        state.scored.p_hat > 0,
        1 <= state.scored.reservoir.m <= cfg.max_m * (i + 1),
        state.scored.reservoir.w_sum == state.scored.p_hat * state.scored.reservoir.m,
        forall|j: int|
            0 <= j < neighbors.len() ==> spec_settled_neighbor(
                cfg,
                state.scored.reservoir.sample,
                state.scored.p_hat,
                #[trigger] neighbors[j],
            ),
        cfg.max_m * (neighbors.len() + 1) <= u32::MAX,
        state.scored.p_hat * (cfg.max_m * (neighbors.len() + 1)) <= u64::MAX,
    ensures
        ({
            let end = spec_spatial_from(cfg, screen_pos, surface, state, neighbors, i);
            &&& end.scored.p_hat == state.scored.p_hat
            &&& end.scored.reservoir.sample == state.scored.reservoir.sample
            &&& end.scored.reservoir.m >= 1
            &&& end.scored.reservoir.w_sum == end.scored.p_hat * end.scored.reservoir.m
        }),
    decreases neighbors.len() - i,
{
    if i < neighbors.len() {
        let p = state.scored.p_hat;
        let cap = cfg.max_m;
        let len = neighbors.len() as int;
        let m = state.scored.reservoir.m;
        let neighbor = neighbors[i];
        let other = neighbor.scored.reservoir;
        let k = other.m;
        let next = spec_spatial_step(cfg, screen_pos, surface, state, neighbor);
        assert(spec_settled_neighbor(cfg, state.scored.reservoir.sample, p, neighbor));
        assert(cap * (i + 2) <= cap * (len + 1)) by (nonlinear_arith)
            requires
                i + 2 <= len + 1,
                cap >= 0,
        ;
        assert(cap * (i + 1) + cap == cap * (i + 2)) by (nonlinear_arith);
        assert(m + k <= cap * (len + 1));
        assert(0 <= p * k <= p * (m + k) && p * (m + k) <= p * (cap * (len + 1)))
            by (nonlinear_arith)
            requires
                0 <= k,
                0 <= m,
                m + k <= cap * (len + 1),
                p > 0,
        ;
        assert(p * m + p * k == p * (m + k)) by (nonlinear_arith);
        if spec_takes(cfg, screen_pos, surface, neighbor) {
            let per = spec_saturate(
                crate::fixed::spec_mul(neighbor.scored.p_hat as int, other.w as int),
            );
            let weight = spec_merge_weight(neighbor.scored.p_hat, other.w, other.m);
            if k == 0 {
                assert(per * 0 == 0);
                assert(p * k == 0) by (nonlinear_arith)
                    requires
                        k == 0,
                ;
            } else {
                assert(per == p);
                assert(per * k == p * k);
            }
            assert(weight == p * k);
            assert(next.scored.reservoir.w_sum == p * (m + k));
            assert(next.scored.reservoir.m == m + k);
            assert(next.scored.reservoir.sample == state.scored.reservoir.sample);
            assert(next.scored.p_hat == p);
        } else {
            assert(next == state);
        }
        lemma_spatial_settled_from(cfg, screen_pos, surface, next, neighbors, i + 1);
    }
}

/// A pixel that is settled on one light stays so among neighbours that
/// are settled on the same light, whichever of them spatial resampling
/// takes in and whatever is drawn: it keeps the light with a weight of
/// exactly one. Counts and sums must stay within their types: the cap times
/// one more than the number of neighbours fits into `u32`, and the target
/// function times that fits into `u64`.
pub proof fn lemma_static_light_among_neighbors(
    cfg: ResamplingConfig,
    screen_pos: UVec2,
    surface: Surface,
    current: Scored,
    neighbors: Seq<Neighbor>,
)
    requires
        current.p_hat > 0,
        current.reservoir.w == 65536,
        1 <= current.reservoir.m <= cfg.max_m,
        current.reservoir.w_sum == current.p_hat * current.reservoir.m,
        forall|j: int|
            0 <= j < neighbors.len() ==> spec_settled_neighbor(
                cfg,
                current.reservoir.sample,
                current.p_hat,
                #[trigger] neighbors[j],
            ),
        cfg.max_m * (neighbors.len() + 1) <= u32::MAX,
        current.p_hat * (cfg.max_m * (neighbors.len() + 1)) <= u64::MAX,
    ensures
        spec_spatial(cfg, screen_pos, surface, current, neighbors).sample
            == current.reservoir.sample,
        spec_spatial(cfg, screen_pos, surface, current, neighbors).w == 65536,
{
    let start = Spatial { scored: current, merged: false };
    assert(cfg.max_m * (0 + 1) == cfg.max_m) by (nonlinear_arith);
    lemma_spatial_settled_from(cfg, screen_pos, surface, start, neighbors, 0);
    let end = spec_spatial_from(cfg, screen_pos, surface, start, neighbors, 0);
    let p = end.scored.p_hat;
    let m = end.scored.reservoir.m;
    assert((p * m) * 65536 / (m * p) == 65536) by (nonlinear_arith)
        requires
            p > 0,
            m > 0,
    ;
}

/// Spatial resampling changes nothing where the search radius is zero or
/// where no neighbour's surface is similar enough.
pub proof fn lemma_spatial_no_op(
    cfg: ResamplingConfig,
    screen_pos: UVec2,
    surface: Surface,
    current: Scored,
    neighbors: Seq<Neighbor>,
)
    requires
        cfg.spatial_radius == 0 || (forall|i: int|
            0 <= i < neighbors.len() ==> !cfg.spec_reusable(
                surface,
                (#[trigger] neighbors[i]).surface,
            )),
    ensures
        spec_spatial(cfg, screen_pos, surface, current, neighbors) == current.reservoir,
{
    lemma_spatial_skips(
        cfg,
        screen_pos,
        surface,
        Spatial { scored: current, merged: false },
        neighbors,
        0,
    );
}

} // verus!
