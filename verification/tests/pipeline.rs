use strolle::camera::{Camera, CameraMode, CameraViewport};
use strolle::camera_controller::passes::{at, at_entry};
use strolle::color::Rgb;
use strolle::gbuffer::GBufferEntry;
use strolle::image::{Image, TexRgba32};
use strolle::light::{Light, LightsView};
use strolle::normal::{Normal, Vec3};
use strolle::pipeline::{CameraBuffers, Shading};
use strolle::resampling::{
    accumulate, gather, reproject, spatial_resample, temporal_resample, Frame, Neighbor,
    Reprojection, ReprojectionMap, ResamplingConfig, Scored,
};
use strolle::reservoir::{DiReservoir, DiSample};
use strolle::resolving::albedo;
use strolle::surface::{Surface, SurfaceMap};
use strolle::uvec::{UVec2, UVec4};
use strolle::{DirectResolvingPass, DirectSpatialResamplingPass, DirectTemporalResamplingPass};

const ONE: u32 = 65536;
const ZERO: UVec4 = UVec4 { x: 0, y: 0, z: 0, w: 0 };

fn camera(width: u32, height: u32) -> Camera {
    Camera {
        mode: CameraMode::Image,
        viewport: CameraViewport {
            format: wgpu::TextureFormat::Rgba8UnormSrgb,
            position: UVec2::new(0, 0),
            size: UVec2::new(width, height),
        },
    }
}

fn plane(depth: u32) -> Surface {
    Surface { normal: Vec3::new(0, 65536, 0), depth, roughness: ONE / 2 }
}

fn wall(depth: u32) -> Surface {
    Surface { normal: Vec3::new(0, 0, 65536), depth, roughness: ONE / 2 }
}

fn surface_texel(surface: Surface) -> UVec4 {
    let n = Normal::encode(surface.normal);
    UVec4 { x: n.0, y: n.1, z: surface.depth, w: surface.roughness }
}

fn next_random(state: &mut u64) -> u64 {
    *state ^= *state << 13;
    *state ^= *state >> 7;
    *state ^= *state << 17;
    *state
}

fn randoms(state: &mut u64, count: usize) -> Vec<u64> {
    (0..count).map(|_| next_random(state)).collect()
}

#[test]
fn pixels_and_slots_correspond() {
    let cam = camera(5, 3);
    assert_eq!(cam.pixels(), 15);
    assert_eq!(cam.idx_to_screen(0), UVec2::new(0, 0));
    assert_eq!(cam.idx_to_screen(7), UVec2::new(2, 1));
    assert_eq!(cam.idx_to_screen(14), UVec2::new(4, 2));
    for idx in 0..15 {
        let pos = cam.idx_to_screen(idx);
        assert!(cam.contains(pos));
        assert_eq!(cam.screen_to_idx(pos), idx);
    }
    assert_eq!(camera(0, 9).pixels(), 0);
    assert_eq!(camera(u32::MAX, u32::MAX).pixels(), (u32::MAX as u64) * (u32::MAX as u64));
}

#[test]
fn buffers_read_zero_beyond_their_end() {
    let buffer = vec![10, 11, 12, 13, 14, 15, 16];
    assert_eq!(at(&buffer, 0), 10);
    assert_eq!(at(&buffer, 6), 16);
    assert_eq!(at(&buffer, 7), 0);
    assert_eq!(at(&buffer, u64::MAX), 0);
    // three entries per slot
    assert_eq!(at_entry(&buffer, 0, 3, 2), 12);
    assert_eq!(at_entry(&buffer, 1, 3, 0), 13);
    assert_eq!(at_entry(&buffer, 2, 3, 0), 16);
    assert_eq!(at_entry(&buffer, 2, 3, 1), 0);
    assert_eq!(at_entry(&buffer, u64::MAX, u32::MAX, u32::MAX), 0);
}

struct Scene {
    cam: Camera,
    surfaces: Image,
    prev_surfaces: Image,
    reprojections: Image,
}

fn scene() -> Scene {
    let cam = camera(3, 2);
    let mut surfaces = Image::new(UVec2::new(3, 2));
    let mut prev_surfaces = Image::new(UVec2::new(3, 2));
    let mut reprojections = Image::new(UVec2::new(3, 2));
    for idx in 0..6 {
        let pos = cam.idx_to_screen(idx);
        // the rightmost column shows a wall now and showed the plane before
        let now = if pos.x == 2 { wall(5 * ONE) } else { plane(5 * ONE) };
        surfaces.write(pos, surface_texel(now));
        prev_surfaces.write(pos, surface_texel(plane(5 * ONE)));
        // the bottom row has no previous position
        reprojections.write(pos, Reprojection { prev_pos: pos, valid: pos.y == 0 }.pack());
    }
    Scene { cam, surfaces, prev_surfaces, reprojections }
}

#[test]
fn the_temporal_pass_resamples_every_pixel() {
    let s = scene();
    let cfg = ResamplingConfig { max_m: 8, ..ResamplingConfig::new() };
    let mut state: u64 = 0x1357_9bdf_0246_8ace;
    let mut candidates = DiReservoir::allocate(6);
    let mut prev = DiReservoir::allocate(6);
    for idx in 0..6u64 {
        let fresh = DiReservoir {
            sample: DiSample { light_id: 1 },
            w_sum: (idx + 1) * ONE as u64,
            m: 1,
            w: ONE as u64,
        };
        fresh.write(&mut candidates, idx);
        let old = DiReservoir {
            sample: DiSample { light_id: 2 },
            w_sum: 40 * ONE as u64,
            m: 30,
            w: ONE as u64,
        };
        old.write(&mut prev, idx);
    }
    let fresh_p_hat = vec![ONE as u64; 6];
    let history_p_hat = vec![2 * ONE as u64; 6];
    let draws = randoms(&mut state, 6);
    // two slots more than the viewport has pixels
    let mut curr = vec![UVec4 { x: 9, y: 9, z: 9, w: 9 }; 16];
    let pass = DirectTemporalResamplingPass::new();
    pass.execute(
        &cfg,
        &s.cam,
        SurfaceMap::new(TexRgba32::new(&s.surfaces)),
        ReprojectionMap::new(TexRgba32::new(&s.reprojections)),
        SurfaceMap::new(TexRgba32::new(&s.prev_surfaces)),
        &candidates,
        &fresh_p_hat,
        &history_p_hat,
        &draws,
        &prev,
        &mut curr,
    );
    let mut reused = 0;
    for idx in 0..6u64 {
        let pos = s.cam.idx_to_screen(idx);
        let found = reproject(
            &s.cam,
            pos,
            ReprojectionMap::new(TexRgba32::new(&s.reprojections)),
            SurfaceMap::new(TexRgba32::new(&s.prev_surfaces)),
            &prev,
        );
        let expected = temporal_resample(
            &cfg,
            &SurfaceMap::new(TexRgba32::new(&s.surfaces)).get(pos),
            &Scored { reservoir: DiReservoir::read(&candidates, idx), p_hat: ONE as u64 },
            &found.with_p_hat(2 * ONE as u64),
            draws[idx as usize],
        );
        let got = DiReservoir::read(&curr, idx);
        assert_eq!(got, expected);
        assert!(got.m <= 8);
        // history counts only in the top row, and there only where the plane still shows
        if pos.y == 0 && pos.x < 2 {
            assert_eq!(got.m, 8);
            reused += 1;
        } else {
            assert_eq!(got.m, 1);
        }
    }
    assert_eq!(reused, 2);
    assert_eq!(curr[12..], [UVec4 { x: 9, y: 9, z: 9, w: 9 }; 4]);
    assert_eq!(curr.len(), 16);
}

#[test]
fn the_temporal_pass_writes_as_far_as_the_buffer_goes() {
    let s = scene();
    let cfg = ResamplingConfig::new();
    let candidates = DiReservoir::allocate(6);
    let prev = DiReservoir::allocate(6);
    // room for two pixels and a half
    let mut curr = vec![UVec4 { x: 9, y: 9, z: 9, w: 9 }; 5];
    DirectTemporalResamplingPass::new().execute(
        &cfg,
        &s.cam,
        SurfaceMap::new(TexRgba32::new(&s.surfaces)),
        ReprojectionMap::new(TexRgba32::new(&s.reprojections)),
        SurfaceMap::new(TexRgba32::new(&s.prev_surfaces)),
        &candidates,
        &Vec::new(),
        &Vec::new(),
        &Vec::new(),
        &prev,
        &mut curr,
    );
    assert_eq!(curr[..4], [ZERO; 4]);
    assert_eq!(curr[4], UVec4 { x: 9, y: 9, z: 9, w: 9 });
}

#[test]
fn the_spatial_pass_hands_reservoirs_on_with_radius_zero() {
    let s = scene();
    let cfg = ResamplingConfig { spatial_radius: 0, ..ResamplingConfig::new() };
    let mut state: u64 = 0x0123_4567_89ab_cdef;
    let mut curr = DiReservoir::allocate(6);
    for idx in 0..6u64 {
        let r = DiReservoir {
            sample: DiSample { light_id: idx as u32 },
            w_sum: (idx + 1) * 1000,
            m: idx as u32 + 1,
            w: 77 + idx,
        };
        r.write(&mut curr, idx);
    }
    let mut next = vec![UVec4 { x: 9, y: 9, z: 9, w: 9 }; 14];
    DirectSpatialResamplingPass::new().execute(
        &cfg,
        &s.cam,
        SurfaceMap::new(TexRgba32::new(&s.surfaces)),
        &curr,
        &vec![ONE as u64; 6],
        &randoms(&mut state, 30),
        &vec![ONE as u64; 30],
        &randoms(&mut state, 30),
        &mut next,
    );
    assert_eq!(next[..12], curr[..]);
    assert_eq!(next[12..], [UVec4 { x: 9, y: 9, z: 9, w: 9 }; 2]);
}

#[test]
fn the_spatial_pass_merges_the_neighbours_it_picks() {
    let s = scene();
    let cfg = ResamplingConfig { spatial_radius: 1, ..ResamplingConfig::new() };
    let mut state: u64 = 0x0fed_cba9_8765_4321;
    let mut curr = DiReservoir::allocate(6);
    for idx in 0..6u64 {
        let r = DiReservoir {
            sample: DiSample { light_id: idx as u32 },
            w_sum: (idx + 1) * ONE as u64,
            m: 2,
            w: ONE as u64,
        };
        r.write(&mut curr, idx);
    }
    let p_hat: Vec<u64> = (0..6).map(|idx| (idx + 1) * ONE as u64 / 2).collect();
    let picks = randoms(&mut state, 30);
    let neighbor_p_hat: Vec<u64> = (0..30).map(|i| ONE as u64 + i * 100).collect();
    let draws = randoms(&mut state, 30);
    let mut next = DiReservoir::allocate(6);
    let surface_map = SurfaceMap::new(TexRgba32::new(&s.surfaces));
    DirectSpatialResamplingPass::new().execute(
        &cfg,
        &s.cam,
        surface_map,
        &curr,
        &p_hat,
        &picks,
        &neighbor_p_hat,
        &draws,
        &mut next,
    );
    let mut merged = 0;
    for idx in 0..6u64 {
        let pos = s.cam.idx_to_screen(idx);
        let mut neighbors = Vec::new();
        for j in 0..5u64 {
            let pick = picks[(idx * 5 + j) as usize];
            let random = UVec2::new(pick as u32, (pick >> 32) as u32);
            if let Some((screen_pos, surface, reservoir)) =
                gather(&cfg, &s.cam, pos, random, surface_map, &curr)
            {
                neighbors.push(Neighbor {
                    screen_pos,
                    surface,
                    scored: Scored { reservoir, p_hat: neighbor_p_hat[(idx * 5 + j) as usize] },
                    random: draws[(idx * 5 + j) as usize],
                });
            }
        }
        let current =
            Scored { reservoir: DiReservoir::read(&curr, idx), p_hat: p_hat[idx as usize] };
        let expected = spatial_resample(&cfg, pos, &surface_map.get(pos), &current, &neighbors);
        let got = DiReservoir::read(&next, idx);
        assert_eq!(got, expected);
        if got != current.reservoir {
            assert!(got.m > 2 && got.m % 2 == 0);
            merged += 1;
        }
    }
    assert!(merged > 0);
}

#[test]
fn the_resolving_pass_shades_every_pixel() {
    let cam = camera(3, 2);
    let items = vec![Light::point(
        Vec3::new(0, 4 * 65536, 0),
        ONE / 10,
        Rgb { r: 8 * ONE, g: 4 * ONE, b: 2 * ONE },
        100 * ONE,
    )];
    let lights = LightsView::new(&items);
    let mut d0 = Image::new(UVec2::new(3, 2));
    let mut d1 = Image::new(UVec2::new(3, 2));
    let mut next = DiReservoir::allocate(6);
    let mut points = Vec::new();
    let mut sky = Vec::new();
    for idx in 0..6u64 {
        let pos = cam.idx_to_screen(idx);
        // the bottom row shows sky
        let depth = if pos.y == 0 { 4 * ONE } else { 0 };
        let hit = GBufferEntry::from_surface(plane(depth), 0x00ff_ffff, 0, 0, ONE / 2).pack();
        d0.write(pos, hit[0]);
        d1.write(pos, hit[1]);
        let r = DiReservoir {
            sample: DiSample { light_id: 0 },
            w_sum: 5,
            m: 1,
            w: (idx + 1) * ONE as u64,
        };
        r.write(&mut next, idx);
        points.push(Vec3::new(0, 0, 0));
        sky.push(Rgb { r: idx as u32, g: 100, b: 200 });
    }
    let mut prev = vec![UVec4 { x: 9, y: 9, z: 9, w: 9 }; 14];
    // the output is wider than the viewport
    let mut output = Image::new(UVec2::new(4, 2));
    output.write(UVec2::new(3, 1), UVec4 { x: 1, y: 2, z: 3, w: 4 });
    let pass = DirectResolvingPass::new();
    pass.execute(
        &cam,
        &lights,
        TexRgba32::new(&d0),
        TexRgba32::new(&d1),
        &points,
        &sky,
        &next,
        &mut prev,
        &mut output,
    );
    // straight under the light: 8 / 16, 4 / 16, 2 / 16, times the weight
    for x in 0..3u32 {
        let w = x + 1;
        assert_eq!(
            output.read(UVec2::new(x, 0)),
            UVec4 { x: w * ONE / 2, y: w * ONE / 4, z: w * ONE / 8, w: 0 }
        );
        assert_eq!(output.read(UVec2::new(x, 1)), UVec4 { x: x + 3, y: 100, z: 200, w: 0 });
    }
    assert_eq!(output.read(UVec2::new(3, 0)), ZERO);
    assert_eq!(output.read(UVec2::new(3, 1)), UVec4 { x: 1, y: 2, z: 3, w: 4 });
    // this frame's reservoirs are the next frame's history
    assert_eq!(prev[..12], next[..]);
    assert_eq!(prev[12..], [UVec4 { x: 9, y: 9, z: 9, w: 9 }; 2]);

    // without lights, geometry is black and sky is sky
    let none = Vec::new();
    pass.execute(
        &cam,
        &LightsView::new(&none),
        TexRgba32::new(&d0),
        TexRgba32::new(&d1),
        &points,
        &sky,
        &next,
        &mut prev,
        &mut output,
    );
    for x in 0..3u32 {
        assert_eq!(output.read(UVec2::new(x, 0)), ZERO);
        assert_eq!(output.read(UVec2::new(x, 1)), UVec4 { x: x + 3, y: 100, z: 200, w: 0 });
    }
}

#[test]
fn a_static_light_gives_the_same_image_frame_after_frame() {
    let cfg = ResamplingConfig { spatial_radius: 2, ..ResamplingConfig::new() };
    let cam = camera(4, 4);
    let items = vec![Light::point(
        Vec3::new(0, 4 * 65536, 0),
        ONE / 10,
        Rgb { r: 8 * ONE, g: 8 * ONE, b: 8 * ONE },
        100 * ONE,
    )];
    let lights = LightsView::new(&items);
    let mut d0 = Image::new(UVec2::new(4, 4));
    let mut d1 = Image::new(UVec2::new(4, 4));
    let mut reprojections = Image::new(UVec2::new(4, 4));
    let mut points = Vec::new();
    let mut p_hat = Vec::new();
    let mut expected = Vec::new();
    let hit = GBufferEntry::from_surface(plane(4 * ONE), 0x00ff_ffff, 0, 0, ONE / 2);
    for idx in 0..16u64 {
        let pos = cam.idx_to_screen(idx);
        d0.write(pos, hit.pack()[0]);
        d1.write(pos, hit.pack()[1]);
        reprojections.write(pos, Reprojection { prev_pos: pos, valid: true }.pack());
        // the plane's points, half a unit apart, the light above their middle
        let point = Vec3::new(pos.x as i32 * 32768 - 49152, 0, pos.y as i32 * 32768 - 49152);
        let sent = items[0].contribution(&point, &hit.normal, albedo(hit.base_color));
        assert!(sent.r > 0);
        points.push(point);
        p_hat.push(sent.r as u64);
        expected.push(UVec4 { x: sent.r, y: sent.g, z: sent.b, w: 0 });
    }
    let neighbor_p_hat: Vec<u64> = p_hat.iter().flat_map(|&p| [p; 5]).collect();
    let sky = vec![Rgb { r: 0, g: 0, b: 0 }; 16];

    let temporal = DirectTemporalResamplingPass::new();
    let spatial = DirectSpatialResamplingPass::new();
    let resolving = DirectResolvingPass::new();
    let mut prev = DiReservoir::allocate(16);
    let mut state: u64 = 0x1234_5678_9abc_def1;
    let mut images = Vec::new();
    for _ in 0..66 {
        // this frame's candidates: the one light, weighted by what it sends
        let mut candidates = DiReservoir::allocate(16);
        for idx in 0..16u64 {
            let mut fresh = DiReservoir::empty();
            fresh.add(DiSample { light_id: 0 }, p_hat[idx as usize], 0);
            fresh.write(&mut candidates, idx);
        }
        let mut curr = DiReservoir::allocate(16);
        temporal.execute(
            &cfg,
            &cam,
            SurfaceMap::new(TexRgba32::new(&d0)),
            ReprojectionMap::new(TexRgba32::new(&reprojections)),
            SurfaceMap::new(TexRgba32::new(&d0)),
            &candidates,
            &p_hat,
            &p_hat,
            &randoms(&mut state, 16),
            &prev,
            &mut curr,
        );
        let mut next = DiReservoir::allocate(16);
        spatial.execute(
            &cfg,
            &cam,
            SurfaceMap::new(TexRgba32::new(&d0)),
            &curr,
            &p_hat,
            &randoms(&mut state, 80),
            &neighbor_p_hat,
            &randoms(&mut state, 80),
            &mut next,
        );
        let mut output = Image::new(UVec2::new(4, 4));
        resolving.execute(
            &cam,
            &lights,
            TexRgba32::new(&d0),
            TexRgba32::new(&d1),
            &points,
            &sky,
            &next,
            &mut prev,
            &mut output,
        );
        let image: Vec<UVec4> = (0..16).map(|idx| output.read(cam.idx_to_screen(idx))).collect();
        images.push(image);
    }
    assert_eq!(images[63], images[64]);
    assert_eq!(images[0], expected);
    assert_eq!(images[64], expected);
    // under the light's foot, a quarter of a unit off in both directions: close to 8 / 16
    let near = images[64][5].x as f64 / 65536.0;
    let off = 0.25f64 * 0.25 * 2.0 + 16.0;
    let analytic = 8.0 * (4.0 / off.sqrt()) / off;
    assert!((near - analytic).abs() < 0.0001, "{} against {}", near, analytic);
    for idx in 0..16 {
        assert_eq!(DiReservoir::read(&prev, idx).w, ONE as u64);
    }
}

#[test]
fn ten_thousand_frames_stay_within_the_cap() {
    let cfg = ResamplingConfig::new();
    let mut state: u64 = 0x2545_f491_4f6c_dd1d;
    let frames: Vec<Frame> = (0..10_000u32)
        .map(|i| Frame {
            surface: plane(4 * ONE),
            fresh: Scored {
                reservoir: DiReservoir {
                    sample: DiSample { light_id: i % 3 },
                    w_sum: ONE as u64 + next_random(&mut state) % 1000,
                    m: 1 + i % 2,
                    w: ONE as u64,
                },
                p_hat: ONE as u64,
            },
            valid: i % 7 != 0,
            prev_surface: plane(4 * ONE),
            history_p_hat: ONE as u64 + (i % 5) as u64,
            random: next_random(&mut state),
        })
        .collect();
    for n in [1usize, 2, 19, 20, 21, 100, 10_000] {
        let r = accumulate(&cfg, DiReservoir::empty(), &frames[..n].to_vec());
        assert!(r.m <= cfg.max_m, "{} frames: m = {}", n, r.m);
        assert!(r.m >= 1);
    }
    // no frame at all leaves what there was
    let start = DiReservoir { sample: DiSample { light_id: 9 }, w_sum: 1, m: 99, w: 3 };
    assert_eq!(accumulate(&cfg, start, &Vec::new()), start);
}

fn lit_buffers(cam: &Camera, light: &Light) -> (CameraBuffers, Shading, Vec<UVec4>) {
    let size = cam.viewport.size;
    let pixels = cam.pixels();
    let mut buffers = CameraBuffers {
        direct_gbuffer_d0: Image::new(size),
        direct_gbuffer_d1: Image::new(size),
        prev_surface_map: Image::new(size),
        reprojection_map: Image::new(size),
        direct_candidates: DiReservoir::allocate(pixels as usize),
        direct_prev_reservoirs: DiReservoir::allocate(pixels as usize),
        direct_curr_reservoirs: DiReservoir::allocate(pixels as usize),
        direct_next_reservoirs: DiReservoir::allocate(pixels as usize),
        direct_samples: Image::new(size),
    };
    let mut shading = Shading {
        points: Vec::new(),
        sky: Vec::new(),
        fresh_p_hat: Vec::new(),
        history_p_hat: Vec::new(),
        current_p_hat: Vec::new(),
        neighbor_p_hat: Vec::new(),
        temporal_randoms: Vec::new(),
        picks: Vec::new(),
        spatial_randoms: Vec::new(),
    };
    let mut expected = Vec::new();
    let hit = GBufferEntry::from_surface(plane(4 * ONE), 0x00ff_ffff, 0, 0, ONE / 2);
    for idx in 0..pixels {
        let pos = cam.idx_to_screen(idx);
        buffers.direct_gbuffer_d0.write(pos, hit.pack()[0]);
        buffers.direct_gbuffer_d1.write(pos, hit.pack()[1]);
        buffers.prev_surface_map.write(pos, hit.pack()[0]);
        buffers.reprojection_map.write(pos, Reprojection { prev_pos: pos, valid: true }.pack());
        let point = Vec3::new(pos.x as i32 * 32768 - 49152, 0, pos.y as i32 * 32768 - 49152);
        let sent = light.contribution(&point, &hit.normal, albedo(hit.base_color));
        let p = sent.r as u64;
        // three candidates per frame, all of them the one light
        let fresh = DiReservoir { sample: DiSample { light_id: 0 }, w_sum: 3 * p, m: 3, w: 0 };
        fresh.write(&mut buffers.direct_candidates, idx);
        shading.points.push(point);
        shading.sky.push(Rgb { r: 1, g: 2, b: 3 });
        shading.fresh_p_hat.push(p);
        shading.history_p_hat.push(p);
        shading.current_p_hat.push(p);
        shading.neighbor_p_hat.extend([p; 5]);
        expected.push(UVec4 { x: sent.r, y: sent.g, z: sent.b, w: 0 });
    }
    (buffers, shading, expected)
}

#[test]
fn frames_under_a_static_light_resolve_to_what_the_light_sends() {
    let cfg = ResamplingConfig { spatial_radius: 3, ..ResamplingConfig::new() };
    let cam = camera(4, 4);
    let items = vec![Light::point(
        Vec3::new(0, 4 * 65536, 0),
        ONE / 10,
        Rgb { r: 8 * ONE, g: 6 * ONE, b: 4 * ONE },
        100 * ONE,
    )];
    let lights = LightsView::new(&items);
    let (mut buffers, mut shading, expected) = lit_buffers(&cam, &items[0]);
    let temporal = DirectTemporalResamplingPass::new();
    let spatial = DirectSpatialResamplingPass::new();
    let resolving = DirectResolvingPass::new();
    let mut state: u64 = 0x9e37_79b9_7f4a_7c15;
    let mut images = Vec::new();
    for _ in 0..66 {
        shading.temporal_randoms = randoms(&mut state, 16);
        shading.picks = randoms(&mut state, 80);
        shading.spatial_randoms = randoms(&mut state, 80);
        buffers.run_frame(&cfg, &cam, &lights, &shading, &temporal, &spatial, &resolving);
        let image: Vec<UVec4> =
            (0..16).map(|idx| buffers.direct_samples.read(cam.idx_to_screen(idx))).collect();
        images.push(image);
        for idx in 0..16 {
            assert!(DiReservoir::read(&buffers.direct_curr_reservoirs, idx).m <= cfg.max_m);
            assert_eq!(DiReservoir::read(&buffers.direct_prev_reservoirs, idx).w, ONE as u64);
            assert_eq!(
                DiReservoir::read(&buffers.direct_prev_reservoirs, idx),
                DiReservoir::read(&buffers.direct_next_reservoirs, idx)
            );
        }
    }
    for image in images.iter() {
        assert_eq!(image, &expected);
    }
    assert_eq!(images[63], images[64]);
}

#[test]
fn frames_without_lights_stay_dark() {
    let cfg = ResamplingConfig::new();
    let cam = camera(4, 4);
    let lamp = Light::point(Vec3::new(0, 4 * 65536, 0), 0, Rgb { r: ONE, g: ONE, b: ONE }, 100 * ONE);
    let (mut buffers, mut shading, _) = lit_buffers(&cam, &lamp);
    // no light, no candidates
    buffers.direct_candidates = DiReservoir::allocate(16);
    // the last row shows sky
    for x in 0..4 {
        buffers.direct_gbuffer_d0.write(UVec2::new(x, 3), ZERO);
    }
    let none = Vec::new();
    let lights = LightsView::new(&none);
    let temporal = DirectTemporalResamplingPass::new();
    let spatial = DirectSpatialResamplingPass::new();
    let resolving = DirectResolvingPass::new();
    let mut state: u64 = 0x0bad_cafe_1234_5678;
    for _ in 0..4 {
        shading.temporal_randoms = randoms(&mut state, 16);
        shading.picks = randoms(&mut state, 80);
        shading.spatial_randoms = randoms(&mut state, 80);
        buffers.run_frame(&cfg, &cam, &lights, &shading, &temporal, &spatial, &resolving);
        for idx in 0..16 {
            let pos = cam.idx_to_screen(idx);
            let expected = if pos.y == 3 { UVec4 { x: 1, y: 2, z: 3, w: 0 } } else { ZERO };
            assert_eq!(buffers.direct_samples.read(pos), expected);
            assert_eq!(DiReservoir::read(&buffers.direct_prev_reservoirs, idx).m, 0);
        }
    }
}
