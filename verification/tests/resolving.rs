use strolle::camera::{Camera, CameraMode, CameraViewport};
use strolle::color::Rgb;
use strolle::gbuffer::GBufferEntry;
use strolle::image::{Image, TexRgba32};
use strolle::light::{Light, LightKind, LightsView};
use strolle::normal::Vec3;
use strolle::reservoir::{DiReservoir, DiSample};
use strolle::fixed::isqrt;
use strolle::resolving::{albedo, load, resolve, store, Pixel};
use strolle::sampling::pick_light;
use strolle::surface::{Surface, SurfaceMap};
use strolle::uvec::{UVec2, UVec4};

const ONE: u32 = 65536;

fn camera(width: u32, height: u32) -> Camera {
    Camera {
        mode: CameraMode::Image,
        viewport: CameraViewport {
            format: wgpu::TextureFormat::Rgba8UnormSrgb,
            position: UVec2::new(0, 0),
            size: UVec2::new(width, height),
        },
    }
}

fn entry(depth: u32) -> GBufferEntry {
    GBufferEntry::from_surface(
        Surface { normal: Vec3::new(0, 65536, 0), depth, roughness: ONE / 4 },
        0xff80_40ff,
        0x0000_0001,
        ONE / 8,
        ONE / 2,
    )
}

#[test]
fn gbuffer_entries_round_trip() {
    let e = entry(3 * ONE);
    let d = e.pack();
    assert_eq!(d[0].z, 3 * ONE);
    assert_eq!(d[0].w, ONE / 4);
    assert_eq!(d[1], UVec4 { x: 0xff80_40ff, y: 1, z: ONE / 8, w: ONE / 2 });
    let u = GBufferEntry::unpack(d);
    assert_eq!(u, e);
    assert!(u.is_some());
    assert_eq!(u.surface(), e.surface());
    assert!(!entry(0).is_some());
}

#[test]
fn gbuffer_normals_round_trip_within_one_unit() {
    let normals = [
        (37837, 37837, 37837),
        (-65536, 0, 0),
        (12345, -54321, 33333),
        (1, -1, 65535),
        (46341, -46341, 0),
    ];
    for &(x, y, z) in normals.iter() {
        let mut e = entry(9 * ONE);
        e.normal = Vec3::new(x, y, z);
        let u = GBufferEntry::unpack(e.pack());
        assert!((u.normal.x - x).abs() <= 1);
        assert!((u.normal.y - y).abs() <= 1);
        assert!((u.normal.z - z).abs() <= 1);
        assert_eq!(u.depth, e.depth);
        assert_eq!(u.roughness, e.roughness);
        assert_eq!(u.base_color, e.base_color);
        assert_eq!(u.emissive, e.emissive);
        assert_eq!(u.metallic, e.metallic);
        assert_eq!(u.reflectance, e.reflectance);
    }
}

#[test]
fn gbuffer_first_texel_is_a_surface_map_texel() {
    let e = entry(3 * ONE);
    let d = e.pack();
    let mut image = Image::new(UVec2::new(2, 2));
    image.write(UVec2::new(1, 0), d[0]);
    let map = SurfaceMap::new(TexRgba32::new(&image));
    assert_eq!(map.get(UVec2::new(1, 0)), e.surface());
}

#[test]
fn radiance_scales_by_channel_and_saturates() {
    let c = Rgb { r: ONE, g: ONE / 2, b: 3 };
    assert_eq!(c.scale(2 * ONE as u64), Rgb { r: 2 * ONE, g: ONE, b: 6 });
    assert_eq!(c.scale(ONE as u64 / 2), Rgb { r: ONE / 2, g: ONE / 4, b: 1 });
    assert_eq!(c.scale(0), Rgb { r: 0, g: 0, b: 0 });
    assert_eq!(c.scale(u64::MAX), Rgb { r: u32::MAX, g: u32::MAX, b: u32::MAX });
    assert_eq!(c.extend(), UVec4 { x: ONE, y: ONE / 2, z: 3, w: 0 });
}

#[test]
fn lights_are_found_by_their_number() {
    let lamp = Light::point(Vec3::new(0, 5 * 65536, 0), ONE / 10, Rgb { r: 1, g: 2, b: 3 }, 20 * ONE);
    assert_eq!(lamp.kind, LightKind::Point);
    assert_eq!(lamp.position, Vec3::new(0, 5 * 65536, 0));
    assert_eq!(lamp.radius, ONE / 10);
    assert_eq!(lamp.radiance, Rgb { r: 1, g: 2, b: 3 });
    assert_eq!(lamp.range, 20 * ONE);
    let items = vec![lamp];
    let lights = LightsView::new(&items);
    assert_eq!(lights.len(), 1);
    assert_eq!(lights.get(0), Some(lamp));
    assert_eq!(lights.get(1), None);
    let none = Vec::new();
    assert_eq!(LightsView::new(&none).get(0), None);
}

fn scene() -> (Image, Image, Vec<UVec4>) {
    let mut d0 = Image::new(UVec2::new(4, 2));
    let mut d1 = Image::new(UVec2::new(4, 2));
    let hit = entry(3 * ONE).pack();
    d0.write(UVec2::new(2, 1), hit[0]);
    d1.write(UVec2::new(2, 1), hit[1]);
    let mut next = vec![UVec4 { x: 0, y: 0, z: 0, w: 0 }; 16];
    let r = DiReservoir { sample: DiSample { light_id: 5 }, w_sum: 700, m: 3, w: ONE as u64 / 2 };
    r.write(&mut next, 6);
    (d0, d1, next)
}

#[test]
fn load_reads_hit_and_reservoir_of_a_pixel() {
    let (d0, d1, next) = scene();
    let cam = camera(4, 2);
    let pixel = load(UVec2::new(2, 1), &cam, TexRgba32::new(&d0), TexRgba32::new(&d1), &next).unwrap();
    assert_eq!(pixel.screen_pos, UVec2::new(2, 1));
    assert_eq!(pixel.screen_idx, 6);
    assert_eq!(pixel.hit, entry(3 * ONE));
    assert_eq!(pixel.reservoir.sample.light_id, 5);
    assert_eq!(pixel.reservoir.w, ONE as u64 / 2);
    // pixels outside the viewport are not resolved
    assert_eq!(load(UVec2::new(4, 1), &cam, TexRgba32::new(&d0), TexRgba32::new(&d1), &next), None);
    assert_eq!(load(UVec2::new(0, 2), &cam, TexRgba32::new(&d0), TexRgba32::new(&d1), &next), None);
}

#[test]
fn geometry_is_lit_by_the_kept_light_times_the_weight() {
    let (d0, d1, next) = scene();
    let cam = camera(4, 2);
    let pixel = load(UVec2::new(2, 1), &cam, TexRgba32::new(&d0), TexRgba32::new(&d1), &next).unwrap();
    let radiance = Rgb { r: 4 * ONE, g: 2 * ONE, b: ONE };
    assert_eq!(pixel.color(radiance), Rgb { r: 2 * ONE, g: ONE, b: ONE / 2 });

    let mut prev = vec![UVec4 { x: 9, y: 9, z: 9, w: 9 }; 16];
    let mut output = Image::new(UVec2::new(4, 2));
    store(&pixel, radiance, &mut prev, &mut output);
    assert_eq!(output.read(UVec2::new(2, 1)), UVec4 { x: 2 * ONE, y: ONE, z: ONE / 2, w: 0 });
    assert_eq!(output.read(UVec2::new(1, 1)), UVec4 { x: 0, y: 0, z: 0, w: 0 });
    assert_eq!(output.size(), UVec2::new(4, 2));
    // the reservoir becomes the next frame's history
    assert_eq!(DiReservoir::read(&prev, 6), pixel.reservoir);
    assert_eq!(prev[11], UVec4 { x: 9, y: 9, z: 9, w: 9 });
    assert_eq!(prev[14], UVec4 { x: 9, y: 9, z: 9, w: 9 });
}

#[test]
fn sky_pixels_show_the_atmosphere() {
    let (d0, d1, next) = scene();
    let cam = camera(4, 2);
    let pixel = load(UVec2::new(0, 0), &cam, TexRgba32::new(&d0), TexRgba32::new(&d1), &next).unwrap();
    assert!(!pixel.hit.is_some());
    assert_eq!(pixel.reservoir, DiReservoir::empty());
    let sky = Rgb { r: 100, g: 200, b: 300 };
    assert_eq!(pixel.color(sky), sky);
}

#[test]
fn a_scene_without_lights_has_no_direct_radiance() {
    // without lights no candidate is ever seen, so every reservoir stays empty
    let pixel = Pixel {
        screen_pos: UVec2::new(1, 1),
        screen_idx: 5,
        hit: entry(3 * ONE),
        reservoir: DiReservoir::empty(),
    };
    assert_eq!(pixel.color(Rgb { r: 0, g: 0, b: 0 }), Rgb { r: 0, g: 0, b: 0 });
    assert_eq!(pixel.color(Rgb { r: 5 * ONE, g: ONE, b: 7 }), Rgb { r: 0, g: 0, b: 0 });
}

#[test]
fn square_roots_round_down() {
    assert_eq!(isqrt(0), 0);
    assert_eq!(isqrt(1), 1);
    assert_eq!(isqrt(3), 1);
    assert_eq!(isqrt(4), 2);
    assert_eq!(isqrt(99), 9);
    assert_eq!(isqrt(100), 10);
    assert_eq!(isqrt(1 << 36), 1 << 18);
    assert_eq!(isqrt((1 << 36) - 1), (1 << 18) - 1);
    assert_eq!(isqrt(u128::MAX), u64::MAX);
    assert_eq!(isqrt((u64::MAX as u128) * (u64::MAX as u128)), u64::MAX);
    assert_eq!(isqrt((u64::MAX as u128) * (u64::MAX as u128) - 1), u64::MAX - 1);
}

fn lamp(height: i32) -> Light {
    Light::point(
        Vec3::new(0, height, 0),
        ONE / 10,
        Rgb { r: 8 * ONE, g: 4 * ONE, b: ONE },
        20 * ONE,
    )
}

const WHITE: Rgb = Rgb { r: ONE, g: ONE, b: ONE };

#[test]
fn light_falls_off_with_the_square_of_the_distance() {
    let origin = Vec3::new(0, 0, 0);
    let up = Vec3::new(0, 65536, 0);
    // 8 / 4^2, 4 / 4^2, 1 / 4^2
    assert_eq!(
        lamp(4 * 65536).contribution(&origin, &up, WHITE),
        Rgb { r: ONE / 2, g: ONE / 4, b: ONE / 16 }
    );
    // twice as far away: a quarter of it
    assert_eq!(
        lamp(8 * 65536).contribution(&origin, &up, WHITE),
        Rgb { r: ONE / 8, g: ONE / 16, b: ONE / 64 }
    );
    // half the albedo: half of it
    assert_eq!(
        lamp(4 * 65536).contribution(&origin, &up, Rgb { r: ONE / 2, g: ONE, b: 0 }),
        Rgb { r: ONE / 4, g: ONE / 4, b: 0 }
    );
    // very close: the result saturates
    assert_eq!(
        lamp(1).contribution(&origin, &up, WHITE),
        Rgb { r: u32::MAX, g: u32::MAX, b: u32::MAX }
    );
}

#[test]
fn light_falls_off_with_the_cosine_of_the_angle() {
    let up = Vec3::new(0, 65536, 0);
    // the lamp is 3 to the side and 4 up: distance 5, cosine 0.8
    let point = Vec3::new(3 * 65536, 0, 0);
    let c = lamp(4 * 65536).contribution(&point, &up, WHITE);
    // 8 * 0.8 / 25 = 0.256, rounded down twice
    assert_eq!(c.r, 16776);
    assert_eq!(c.b, 2097);
    // grazing light: cosine zero
    let beside = Vec3::new(3 * 65536, 4 * 65536, 0);
    assert_eq!(lamp(4 * 65536).contribution(&beside, &up, WHITE), Rgb { r: 0, g: 0, b: 0 });
}

#[test]
fn no_light_arrives_from_behind_beyond_the_range_or_at_the_lamp() {
    let origin = Vec3::new(0, 0, 0);
    let up = Vec3::new(0, 65536, 0);
    let down = Vec3::new(0, -65536, 0);
    let black = Rgb { r: 0, g: 0, b: 0 };
    assert_eq!(lamp(4 * 65536).contribution(&origin, &down, WHITE), black);
    assert_eq!(lamp(0).contribution(&origin, &up, WHITE), black);
    // the range is 20: at 20 light still arrives, just beyond it does not
    assert_eq!(lamp(20 * 65536).contribution(&origin, &up, WHITE).r, 1310);
    assert_eq!(lamp(20 * 65536 + 1).contribution(&origin, &up, WHITE), black);
    // coordinates at the ends of their range do not overflow
    let far = Light::point(Vec3::new(i32::MAX, i32::MAX, i32::MAX), 0, WHITE, u32::MAX);
    let corner = Vec3::new(i32::MIN, i32::MIN, i32::MIN);
    assert_eq!(far.contribution(&corner, &Vec3::new(i32::MAX, i32::MAX, i32::MAX), WHITE), black);
}

#[test]
fn albedo_is_the_base_colour_without_its_opacity() {
    assert_eq!(albedo(0xffff_ffff), WHITE);
    assert_eq!(albedo(0xff00_0000), Rgb { r: 0, g: 0, b: 0 });
    // red 255, green 128, blue 51
    assert_eq!(albedo(0x0033_80ff), Rgb { r: ONE, g: 32896, b: 13107 });
}

#[test]
fn a_pixel_is_shaded_by_its_kept_light() {
    let items = vec![lamp(8 * 65536), lamp(4 * 65536)];
    let lights = LightsView::new(&items);
    let mut hit = entry(3 * ONE);
    hit.base_color = 0xffff_ffff;
    let pixel = Pixel {
        screen_pos: UVec2::new(1, 0),
        screen_idx: 1,
        hit,
        reservoir: DiReservoir { sample: DiSample { light_id: 1 }, w_sum: 1, m: 1, w: 2 * ONE as u64 },
    };
    let origin = Vec3::new(0, 0, 0);
    let sky = Rgb { r: 7, g: 8, b: 9 };
    assert_eq!(pixel.radiance(&lights, &origin), Rgb { r: ONE / 2, g: ONE / 4, b: ONE / 16 });
    // times the reservoir's weight of two
    assert_eq!(pixel.shaded(&lights, &origin, sky), Rgb { r: ONE, g: ONE / 2, b: ONE / 8 });
    // a light that the scene does not have sends nothing
    let lost = Pixel { reservoir: DiReservoir { sample: DiSample { light_id: 2 }, ..pixel.reservoir }, ..pixel };
    assert_eq!(lost.radiance(&lights, &origin), Rgb { r: 0, g: 0, b: 0 });
    // sky
    let above = Pixel { hit: entry(0), ..pixel };
    assert_eq!(above.shaded(&lights, &origin, sky), sky);

    let mut prev = vec![UVec4 { x: 0, y: 0, z: 0, w: 0 }; 4];
    let mut output = Image::new(UVec2::new(2, 1));
    resolve(&pixel, &lights, &origin, sky, &mut prev, &mut output);
    assert_eq!(output.read(UVec2::new(1, 0)), UVec4 { x: ONE, y: ONE / 2, z: ONE / 8, w: 0 });
    assert_eq!(output.read(UVec2::new(0, 0)), UVec4 { x: 0, y: 0, z: 0, w: 0 });
    assert_eq!(DiReservoir::read(&prev, 1), pixel.reservoir);
    resolve(&above, &lights, &origin, sky, &mut prev, &mut output);
    assert_eq!(output.read(UVec2::new(1, 0)), UVec4 { x: 7, y: 8, z: 9, w: 0 });
}

#[test]
fn without_lights_geometry_is_black_and_sky_is_sky() {
    let none = Vec::new();
    let lights = LightsView::new(&none);
    assert_eq!(pick_light(&lights, 0), None);
    assert_eq!(pick_light(&lights, u64::MAX), None);
    let mut hit = entry(3 * ONE);
    hit.base_color = 0xffff_ffff;
    let origin = Vec3::new(0, 0, 0);
    let sky = Rgb { r: 7, g: 8, b: 9 };
    // whatever the reservoir holds
    for w in [0, ONE as u64, u64::MAX] {
        let pixel = Pixel {
            screen_pos: UVec2::new(0, 0),
            screen_idx: 0,
            hit,
            reservoir: DiReservoir { sample: DiSample { light_id: 0 }, w_sum: 5, m: 3, w },
        };
        assert_eq!(pixel.shaded(&lights, &origin, sky), Rgb { r: 0, g: 0, b: 0 });
        let above = Pixel { hit: entry(0), ..pixel };
        assert_eq!(above.shaded(&lights, &origin, sky), sky);
    }
}

#[test]
fn lights_are_picked_evenly() {
    let items = vec![lamp(1), lamp(2), lamp(3), lamp(4)];
    let lights = LightsView::new(&items);
    assert_eq!(pick_light(&lights, 0), Some(DiSample { light_id: 0 }));
    assert_eq!(pick_light(&lights, (1 << 62) - 1), Some(DiSample { light_id: 0 }));
    assert_eq!(pick_light(&lights, 1 << 62), Some(DiSample { light_id: 1 }));
    assert_eq!(pick_light(&lights, 1 << 63), Some(DiSample { light_id: 2 }));
    assert_eq!(pick_light(&lights, u64::MAX), Some(DiSample { light_id: 3 }));
}
