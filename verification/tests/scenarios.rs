use strolle::camera::{Camera, CameraMode, CameraViewport};
use strolle::color::Rgb;
use strolle::gbuffer::GBufferEntry;
use strolle::image::{Image, TexRgba32};
use strolle::normal::{Normal, Vec3};
use strolle::resampling::{
    gather, reproject, temporal_resample, Reprojected, Reprojection, ReprojectionMap,
    ResamplingConfig, Scored, SPATIAL_NEIGHBORS,
};
use strolle::reservoir::{scale_draw, DiReservoir, DiSample};
use strolle::light::{Light, LightsView};
use strolle::resolving::{albedo, load, resolve};
use strolle::sampling::pick_light;
use strolle::surface::{Surface, SurfaceMap};
use strolle::uvec::{UVec2, UVec4};

const ONE: u32 = 65536;
const ZERO: UVec4 = UVec4 { x: 0, y: 0, z: 0, w: 0 };

fn camera(width: u32, height: u32) -> Camera {
    Camera {
        mode: CameraMode::Image,
        viewport: CameraViewport {
            format: wgpu::TextureFormat::Rgba8UnormSrgb,
            position: UVec2::new(0, 0),
            size: UVec2::new(width, height),
        },
    }
}

fn plane() -> Surface {
    Surface { normal: Vec3::new(0, 65536, 0), depth: 4 * ONE, roughness: ONE / 2 }
}

fn surface_texel(surface: Surface) -> UVec4 {
    let n = Normal::encode(surface.normal);
    UVec4 { x: n.0, y: n.1, z: surface.depth, w: surface.roughness }
}

fn next_random(state: &mut u64) -> u64 {
    *state ^= *state << 13;
    *state ^= *state >> 7;
    *state ^= *state << 17;
    *state
}

#[test]
fn history_is_found_through_the_reprojection_map() {
    let cam = camera(4, 3);
    let mut reprojections = Image::new(UVec2::new(4, 3));
    reprojections.write(
        UVec2::new(2, 1),
        Reprojection { prev_pos: UVec2::new(1, 1), valid: true }.pack(),
    );
    reprojections.write(
        UVec2::new(3, 1),
        Reprojection { prev_pos: UVec2::new(4, 1), valid: true }.pack(),
    );
    let mut surfaces = Image::new(UVec2::new(4, 3));
    surfaces.write(UVec2::new(1, 1), surface_texel(plane()));
    let mut prev = vec![ZERO; 24];
    let stored = DiReservoir { sample: DiSample { light_id: 3 }, w_sum: 99, m: 7, w: 5 };
    stored.write(&mut prev, 5);

    let map = ReprojectionMap::new(TexRgba32::new(&reprojections));
    let surface_map = SurfaceMap::new(TexRgba32::new(&surfaces));
    let found = reproject(&cam, UVec2::new(2, 1), map, surface_map, &prev);
    assert_eq!(found, Reprojected { valid: true, surface: plane(), reservoir: stored });
    let history = found.with_p_hat(17);
    assert!(history.valid);
    assert_eq!(history.surface, plane());
    assert_eq!(history.scored, Scored { reservoir: stored, p_hat: 17 });

    let nothing = Reprojected {
        valid: false,
        surface: Surface { normal: Vec3::new(0, 0, 0), depth: 0, roughness: 0 },
        reservoir: DiReservoir::empty(),
    };
    // no reprojection stored
    assert_eq!(reproject(&cam, UVec2::new(0, 0), map, surface_map, &prev), nothing);
    // the previous position lies outside the viewport
    assert_eq!(reproject(&cam, UVec2::new(3, 1), map, surface_map, &prev), nothing);
    // the pixel itself lies outside the map
    assert_eq!(reproject(&cam, UVec2::new(9, 9), map, surface_map, &prev), nothing);
}

#[test]
fn neighbours_are_gathered_inside_the_viewport() {
    let cfg = ResamplingConfig { spatial_radius: 1, ..ResamplingConfig::new() };
    let cam = camera(4, 3);
    let mut surfaces = Image::new(UVec2::new(4, 3));
    surfaces.write(UVec2::new(3, 2), surface_texel(plane()));
    let mut curr = vec![ZERO; 24];
    let stored = DiReservoir { sample: DiSample { light_id: 3 }, w_sum: 99, m: 7, w: 5 };
    stored.write(&mut curr, 11);
    let surface_map = SurfaceMap::new(TexRgba32::new(&surfaces));
    // offsets (+1, +1)
    let found = gather(&cfg, &cam, UVec2::new(2, 1), UVec2::new(2, 2), surface_map, &curr);
    assert_eq!(found, Some((UVec2::new(3, 2), plane(), stored)));
    // offsets (+1, +1) from the corner leave the viewport
    let found = gather(&cfg, &cam, UVec2::new(3, 2), UVec2::new(2, 2), surface_map, &curr);
    assert_eq!(found, None);
    // offsets (0, 0): the pixel itself
    let found = gather(&cfg, &cam, UVec2::new(3, 2), UVec2::new(1, 1), surface_map, &curr);
    assert_eq!(found, Some((UVec2::new(3, 2), plane(), stored)));
    assert_eq!(SPATIAL_NEIGHBORS, 5);
}

#[test]
fn a_static_light_converges_and_stays() {
    // one point light of radiance 8 straight above a white diffuse plane, four units up
    let analytic = 8.0f64 * 1.0 * 1.0 / (4.0 * 4.0);
    let items = vec![Light::point(
        Vec3::new(0, 4 * 65536, 0),
        ONE / 10,
        Rgb { r: 8 * ONE, g: 8 * ONE, b: 8 * ONE },
        100 * ONE,
    )];
    let lights = LightsView::new(&items);
    let point = Vec3::new(0, 0, 0);

    let cfg = ResamplingConfig::new();
    let cam = camera(1, 1);
    let pos = UVec2::new(0, 0);
    let hit = GBufferEntry::from_surface(plane(), 0xffff_ffff, 0, 0, ONE / 2);
    let packed = hit.pack();
    let mut d0 = Image::new(UVec2::new(1, 1));
    let mut d1 = Image::new(UVec2::new(1, 1));
    d0.write(pos, packed[0]);
    d1.write(pos, packed[1]);
    let mut reprojections = Image::new(UVec2::new(1, 1));
    reprojections.write(pos, Reprojection { prev_pos: pos, valid: true }.pack());

    let mut prev = DiReservoir::allocate(1);
    let mut state: u64 = 0x1234_5678_9abc_def1;
    let mut resolved = Vec::new();
    for _ in 0..66 {
        // this frame's candidate: a light picked from the list, weighted by what it sends
        let sample = pick_light(&lights, next_random(&mut state)).unwrap();
        let sent = lights.get(sample.light_id).unwrap().contribution(
            &point,
            &hit.normal,
            albedo(hit.base_color),
        );
        let p_hat = sent.r as u64;
        let mut fresh = DiReservoir::empty();
        fresh.add(sample, p_hat, scale_draw(next_random(&mut state), p_hat));
        fresh.normalize(p_hat);
        let history = reproject(
            &cam,
            pos,
            ReprojectionMap::new(TexRgba32::new(&reprojections)),
            SurfaceMap::new(TexRgba32::new(&d0)),
            &prev,
        )
        .with_p_hat(p_hat);
        let r = temporal_resample(
            &cfg,
            &plane(),
            &Scored { reservoir: fresh, p_hat },
            &history,
            next_random(&mut state),
        );
        assert_eq!(r.w, ONE as u64);
        let mut next = DiReservoir::allocate(1);
        r.write(&mut next, 0);

        let pixel = load(pos, &cam, TexRgba32::new(&d0), TexRgba32::new(&d1), &next).unwrap();
        let mut output = Image::new(UVec2::new(1, 1));
        resolve(&pixel, &lights, &point, Rgb { r: 0, g: 0, b: 0 }, &mut prev, &mut output);
        resolved.push(output.read(pos));
    }
    let at_64 = resolved[63];
    let at_65 = resolved[64];
    assert_eq!(at_64, at_65);
    assert_eq!(at_64, UVec4 { x: ONE / 2, y: ONE / 2, z: ONE / 2, w: 0 });
    let error = (at_64.x as f64 / 65536.0 - analytic).abs();
    assert!(error < 0.0001, "resolved {} against {}", at_64.x as f64 / 65536.0, analytic);
    assert_eq!(DiReservoir::read(&prev, 0).m, cfg.max_m);
}

#[test]
fn a_scene_without_lights_stays_dark() {
    let none = Vec::new();
    let lights = LightsView::new(&none);
    let cfg = ResamplingConfig::new();
    let cam = camera(2, 1);
    let hit = GBufferEntry::from_surface(plane(), 0xffff_ffff, 0, 0, ONE / 2).pack();
    let mut d0 = Image::new(UVec2::new(2, 1));
    let mut d1 = Image::new(UVec2::new(2, 1));
    // the left pixel shows the plane, the right one the sky
    d0.write(UVec2::new(0, 0), hit[0]);
    d1.write(UVec2::new(0, 0), hit[1]);
    let mut prev = DiReservoir::allocate(2);
    let sky = Rgb { r: 11, g: 22, b: 33 };
    let mut state: u64 = 0x0bad_cafe_1234_5678;
    for _ in 0..8 {
        let mut next = DiReservoir::allocate(2);
        for x in 0..2 {
            let pos = UVec2::new(x, 0);
            // no light, no candidate
            assert_eq!(pick_light(&lights, next_random(&mut state)), None);
            let fresh = Scored { reservoir: DiReservoir::empty(), p_hat: 0 };
            let history = strolle::resampling::History {
                valid: true,
                surface: SurfaceMap::new(TexRgba32::new(&d0)).get(pos),
                scored: Scored { reservoir: DiReservoir::read(&prev, cam.screen_to_idx(pos)), p_hat: 0 },
            };
            let surface = SurfaceMap::new(TexRgba32::new(&d0)).get(pos);
            let r = temporal_resample(&cfg, &surface, &fresh, &history, next_random(&mut state));
            assert_eq!((r.m, r.w), (0, 0));
            r.write(&mut next, cam.screen_to_idx(pos));
        }
        let mut output = Image::new(UVec2::new(2, 1));
        for x in 0..2 {
            let pos = UVec2::new(x, 0);
            let pixel = load(pos, &cam, TexRgba32::new(&d0), TexRgba32::new(&d1), &next).unwrap();
            resolve(&pixel, &lights, &Vec3::new(0, 0, 0), sky, &mut prev, &mut output);
        }
        assert_eq!(output.read(UVec2::new(0, 0)), ZERO);
        assert_eq!(output.read(UVec2::new(1, 0)), UVec4 { x: 11, y: 22, z: 33, w: 0 });
    }
}

#[test]
fn a_shift_by_one_pixel_keeps_history_but_for_the_new_edge() {
    let cfg = ResamplingConfig::new();
    let (width, height) = (8u32, 4u32);
    let cam = camera(width, height);
    let p_hat = ONE as u64;

    // every pixel has seen twelve frames of the same plane
    let mut surfaces = Image::new(UVec2::new(width, height));
    let mut prev = vec![ZERO; (2 * width * height) as usize];
    for y in 0..height {
        for x in 0..width {
            surfaces.write(UVec2::new(x, y), surface_texel(plane()));
            let r = DiReservoir {
                sample: DiSample { light_id: 0 },
                w_sum: 12 * ONE as u64,
                m: 12,
                w: ONE as u64,
            };
            r.write(&mut prev, cam.screen_to_idx(UVec2::new(x, y)));
        }
    }
    // the camera moved by one pixel: what is at x now was at x + 1 before
    let mut reprojections = Image::new(UVec2::new(width, height));
    for y in 0..height {
        for x in 0..width {
            let there = Reprojection { prev_pos: UVec2::new(x + 1, y), valid: x + 1 < width };
            reprojections.write(UVec2::new(x, y), there.pack());
        }
    }

    let mut state: u64 = 0x0f0f_1234_5678_9abc;
    let mut kept = 0;
    let mut reset = 0;
    for y in 0..height {
        for x in 0..width {
            let pos = UVec2::new(x, y);
            let fresh = Scored {
                reservoir: DiReservoir {
                    sample: DiSample { light_id: 0 },
                    w_sum: ONE as u64,
                    m: 1,
                    w: ONE as u64,
                },
                p_hat,
            };
            let history = reproject(
                &cam,
                pos,
                ReprojectionMap::new(TexRgba32::new(&reprojections)),
                SurfaceMap::new(TexRgba32::new(&surfaces)),
                &prev,
            )
            .with_p_hat(p_hat);
            let r = temporal_resample(&cfg, &plane(), &fresh, &history, next_random(&mut state));
            if x + 1 < width {
                assert_eq!(r.m, 13, "pixel {} {}", x, y);
                kept += 1;
            } else {
                assert_eq!(r.m, 1, "pixel {} {}", x, y);
                reset += 1;
            }
        }
    }
    assert_eq!(kept, 28);
    assert_eq!(reset, 4);
}
