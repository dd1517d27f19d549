use strolle::image::{Image, TexRgba32};
use strolle::normal::Vec3;
use strolle::resampling::{
    in_reach, neighbor_pos, spatial_resample, spatial_step, temporal_resample, History, Neighbor, Reprojection,
    ReprojectionMap, ResamplingConfig, Scored, Spatial, DEFAULT_MAX_M,
};
use strolle::reservoir::{DiReservoir, DiSample};
use strolle::surface::Surface;
use strolle::uvec::{UVec2, UVec4};

const ONE: u64 = 65536;

fn wall(depth: u32) -> Surface {
    Surface { normal: Vec3::new(0, 0, 65536), depth, roughness: 32768 }
}

fn floor(depth: u32) -> Surface {
    Surface { normal: Vec3::new(0, 65536, 0), depth, roughness: 32768 }
}

fn reservoir(light_id: u32, w_sum: u64, m: u32, w: u64) -> DiReservoir {
    DiReservoir { sample: DiSample { light_id }, w_sum, m, w }
}

#[test]
fn default_config_has_the_documented_values() {
    let cfg = ResamplingConfig::new();
    assert_eq!(cfg.max_m, 20);
    assert_eq!(cfg.similarity_threshold, 32768);
    assert_eq!(cfg.spatial_radius, 16);
    assert_eq!(DEFAULT_MAX_M, 20);
}

#[test]
fn reuse_needs_similar_surfaces() {
    let cfg = ResamplingConfig::new();
    assert!(cfg.reusable(&wall(5 * 65536), &wall(5 * 65536)));
    assert!(!cfg.reusable(&wall(5 * 65536), &floor(5 * 65536)));
    assert!(!cfg.reusable(&wall(5 * 65536), &wall(6 * 65536)));
    assert!(!cfg.reusable(&wall(5 * 65536), &wall(0)));
    assert!(!cfg.reusable(&wall(0), &wall(0)));
    // a threshold of zero still refuses a similarity of zero
    let lax = ResamplingConfig { similarity_threshold: 0, ..cfg };
    assert!(!lax.reusable(&wall(5 * 65536), &floor(5 * 65536)));
    assert!(lax.reusable(&wall(50 * 65536), &wall(55 * 65536)));
    assert!(!cfg.reusable(&wall(50 * 65536), &wall(55 * 65536)));
}

#[test]
fn temporal_resampling_merges_history() {
    let cfg = ResamplingConfig::new();
    let surface = wall(5 * 65536);
    let fresh = Scored { reservoir: reservoir(1, 2 * ONE, 1, 2 * ONE), p_hat: ONE };
    let history = History {
        valid: true,
        surface,
        scored: Scored { reservoir: reservoir(2, 9 * ONE, 3, ONE), p_hat: 2 * ONE },
    };
    // history enters with 2.0 * 1.0 * 3 = 6.0 of a total of 8.0
    let kept = temporal_resample(&cfg, &surface, &fresh, &history, 0);
    assert_eq!(kept, reservoir(2, 8 * ONE, 4, ONE));
    let not_kept = temporal_resample(&cfg, &surface, &fresh, &history, u64::MAX);
    assert_eq!(not_kept, reservoir(1, 8 * ONE, 4, 2 * ONE));
}

#[test]
fn temporal_resampling_discards_history_that_does_not_fit() {
    let cfg = ResamplingConfig::new();
    let surface = wall(5 * 65536);
    let fresh = Scored { reservoir: reservoir(1, 2 * ONE, 1, 0), p_hat: ONE };
    let scored = Scored { reservoir: reservoir(2, 9 * ONE, 3, ONE), p_hat: 2 * ONE };
    let alone = reservoir(1, 2 * ONE, 1, 2 * ONE);
    // no valid reprojection
    let history = History { valid: false, surface, scored };
    assert_eq!(temporal_resample(&cfg, &surface, &fresh, &history, 0), alone);
    // another surface was there
    let history = History { valid: true, surface: floor(5 * 65536), scored };
    assert_eq!(temporal_resample(&cfg, &surface, &fresh, &history, 0), alone);
    // the sky was there
    let history = History { valid: true, surface: wall(0), scored };
    assert_eq!(temporal_resample(&cfg, &surface, &fresh, &history, 0), alone);
}

#[test]
fn history_never_exceeds_the_cap() {
    let cfg = ResamplingConfig { max_m: 20, ..ResamplingConfig::new() };
    let surface = wall(5 * 65536);
    let mut prev = Scored { reservoir: DiReservoir::empty(), p_hat: 0 };
    let mut state: u64 = 0x2545_f491_4f6c_dd1d;
    let mut largest = 0;
    for frame in 0..10_000u32 {
        state ^= state << 13;
        state ^= state >> 7;
        state ^= state << 17;
        let fresh = Scored {
            reservoir: reservoir(frame % 3, ONE + (state % ONE), 1, ONE),
            p_hat: ONE,
        };
        let history = History { valid: true, surface, scored: prev };
        let r = temporal_resample(&cfg, &surface, &fresh, &history, state);
        assert!(r.m <= 20, "frame {}: m = {}", frame, r.m);
        if frame < 20 {
            assert_eq!(r.m, frame + 1);
        } else {
            assert_eq!(r.m, 20);
        }
        largest = largest.max(r.m);
        prev = Scored { reservoir: r, p_hat: ONE };
    }
    assert_eq!(largest, 20);
}

#[test]
fn oversized_history_is_cut_down_before_it_is_merged() {
    let cfg = ResamplingConfig { max_m: 4, ..ResamplingConfig::new() };
    let surface = wall(5 * 65536);
    let fresh = Scored { reservoir: reservoir(1, ONE, 1, ONE), p_hat: ONE };
    let history = History {
        valid: true,
        surface,
        scored: Scored { reservoir: reservoir(2, 80 * ONE, 40, ONE), p_hat: ONE },
    };
    // history counts as 4 candidates of weight 1.0 each; the merged 5 are cut to 4
    let r = temporal_resample(&cfg, &surface, &fresh, &history, 0);
    assert_eq!(r.m, 4);
    assert_eq!(r.sample.light_id, 2);
    assert_eq!(r.w_sum, 4 * ONE);
    assert_eq!(r.w, ONE);
    let none = ResamplingConfig { max_m: 0, ..cfg };
    let r = temporal_resample(&none, &surface, &fresh, &history, 0);
    assert_eq!(r, reservoir(1, 0, 0, 0));
}

#[test]
fn neighbours_in_reach_are_other_pixels_within_the_radius() {
    let cfg = ResamplingConfig { spatial_radius: 2, ..ResamplingConfig::new() };
    let pos = UVec2::new(10, 10);
    assert!(in_reach(&cfg, pos, UVec2::new(12, 8)));
    assert!(in_reach(&cfg, pos, UVec2::new(10, 11)));
    assert!(!in_reach(&cfg, pos, UVec2::new(10, 10)));
    assert!(!in_reach(&cfg, pos, UVec2::new(13, 10)));
    assert!(!in_reach(&cfg, pos, UVec2::new(10, 7)));
    assert!(!in_reach(&cfg, UVec2::new(0, 0), UVec2::new(u32::MAX, 0)));
    let zero = ResamplingConfig { spatial_radius: 0, ..cfg };
    assert!(!in_reach(&zero, pos, UVec2::new(10, 10)));
    assert!(!in_reach(&zero, pos, UVec2::new(10, 11)));
}

fn neighbor(x: u32, y: u32, surface: Surface, random: u64) -> Neighbor {
    Neighbor {
        screen_pos: UVec2::new(x, y),
        surface,
        scored: Scored { reservoir: reservoir(7, 5 * ONE, 2, ONE), p_hat: 3 * ONE },
        random,
    }
}

#[test]
fn spatial_resampling_merges_similar_neighbours() {
    let cfg = ResamplingConfig::new();
    let surface = wall(5 * 65536);
    let current = Scored { reservoir: reservoir(1, 2 * ONE, 1, 2 * ONE), p_hat: ONE };
    // the neighbour enters with 3.0 * 1.0 * 2 = 6.0 of a total of 8.0
    let neighbors = vec![neighbor(11, 10, surface, 0)];
    let r = spatial_resample(&cfg, UVec2::new(10, 10), &surface, &current, &neighbors);
    // 8.0 / (3 * 3.0)
    assert_eq!(r, reservoir(7, 8 * ONE, 3, 58254));
    let neighbors = vec![neighbor(11, 10, surface, u64::MAX)];
    let r = spatial_resample(&cfg, UVec2::new(10, 10), &surface, &current, &neighbors);
    // 8.0 / (3 * 1.0)
    assert_eq!(r, reservoir(1, 8 * ONE, 3, 174762));
    // two neighbours, the first kept, the second not
    let neighbors = vec![neighbor(11, 10, surface, 0), neighbor(9, 9, surface, u64::MAX)];
    let r = spatial_resample(&cfg, UVec2::new(10, 10), &surface, &current, &neighbors);
    assert_eq!(r, reservoir(7, 14 * ONE, 5, 61166));
}

#[test]
fn spatial_step_reports_whether_it_merged() {
    let cfg = ResamplingConfig::new();
    let surface = wall(5 * 65536);
    let current = Scored { reservoir: reservoir(1, 2 * ONE, 1, 2 * ONE), p_hat: ONE };
    let start = Spatial { scored: current, merged: false };
    let skipped = spatial_step(&cfg, UVec2::new(10, 10), &surface, start, &neighbor(10, 10, surface, 0));
    assert_eq!(skipped, start);
    let taken = spatial_step(&cfg, UVec2::new(10, 10), &surface, start, &neighbor(10, 11, surface, 0));
    assert!(taken.merged);
    assert_eq!(taken.scored.p_hat, 3 * ONE);
    assert_eq!(taken.scored.reservoir, reservoir(7, 8 * ONE, 3, 2 * ONE));
}

#[test]
fn spatial_resampling_with_radius_zero_changes_nothing() {
    let cfg = ResamplingConfig { spatial_radius: 0, ..ResamplingConfig::new() };
    let surface = wall(5 * 65536);
    let current = Scored { reservoir: reservoir(1, 2 * ONE, 1, 12345), p_hat: ONE };
    let neighbors = vec![
        neighbor(10, 10, surface, 0),
        neighbor(11, 10, surface, 0),
        neighbor(10, 9, surface, 0),
    ];
    let r = spatial_resample(&cfg, UVec2::new(10, 10), &surface, &current, &neighbors);
    assert_eq!(r, current.reservoir);
}

#[test]
fn spatial_resampling_skips_dissimilar_neighbours() {
    let cfg = ResamplingConfig::new();
    let surface = wall(5 * 65536);
    let current = Scored { reservoir: reservoir(1, 2 * ONE, 1, 12345), p_hat: ONE };
    let neighbors = vec![
        neighbor(11, 10, floor(5 * 65536), 0),
        neighbor(9, 10, wall(0), 0),
        neighbor(10, 11, wall(9 * 65536), 0),
    ];
    let r = spatial_resample(&cfg, UVec2::new(10, 10), &surface, &current, &neighbors);
    assert_eq!(r, current.reservoir);
    let r = spatial_resample(&cfg, UVec2::new(10, 10), &surface, &current, &Vec::new());
    assert_eq!(r, current.reservoir);
    // out of reach
    let neighbors = vec![neighbor(27, 10, surface, 0)];
    let r = spatial_resample(&cfg, UVec2::new(10, 10), &surface, &current, &neighbors);
    assert_eq!(r, current.reservoir);
}

#[test]
fn reprojection_map_holds_previous_positions() {
    let mut image = Image::new(UVec2::new(3, 3));
    let there = Reprojection { prev_pos: UVec2::new(2, 1), valid: true };
    let packed = there.pack();
    assert_eq!(packed, UVec4 { x: 2, y: 1, z: 1, w: 0 });
    assert_eq!(Reprojection::unpack(packed), there);
    image.write(UVec2::new(1, 1), packed);
    let map = ReprojectionMap::new(TexRgba32::new(&image));
    assert_eq!(map.get(UVec2::new(1, 1)), there);
    assert!(!map.get(UVec2::new(0, 0)).valid);
    assert!(!map.get(UVec2::new(3, 1)).valid);
    let gone = Reprojection { prev_pos: UVec2::new(7, 8), valid: false };
    assert_eq!(gone.pack(), UVec4 { x: 7, y: 8, z: 0, w: 0 });
    assert_eq!(Reprojection::unpack(UVec4 { x: 7, y: 8, z: 5, w: 9 }).valid, true);
}

#[test]
fn neighbour_positions_stay_within_the_radius() {
    let cfg = ResamplingConfig { spatial_radius: 2, ..ResamplingConfig::new() };
    let pos = UVec2::new(10, 10);
    // the random number picks one of the five offsets -2..=2
    assert_eq!(neighbor_pos(&cfg, pos, UVec2::new(0, 4)), UVec2::new(8, 12));
    assert_eq!(neighbor_pos(&cfg, pos, UVec2::new(2, 7)), UVec2::new(10, 10));
    assert_eq!(neighbor_pos(&cfg, pos, UVec2::new(5, 11)), UVec2::new(8, 9));
    // positions stay on the grid
    assert_eq!(neighbor_pos(&cfg, UVec2::new(1, 0), UVec2::new(0, 0)), UVec2::new(0, 0));
    assert_eq!(
        neighbor_pos(&cfg, UVec2::new(u32::MAX, u32::MAX - 1), UVec2::new(4, 4)),
        UVec2::new(u32::MAX, u32::MAX)
    );
    let zero = ResamplingConfig { spatial_radius: 0, ..cfg };
    assert_eq!(neighbor_pos(&zero, pos, UVec2::new(123, 456)), pos);
    let all = ResamplingConfig { spatial_radius: u32::MAX, ..cfg };
    assert_eq!(neighbor_pos(&all, pos, UVec2::new(u32::MAX, 0)), UVec2::new(10, 0));
    for rx in 0..20 {
        for ry in 0..20 {
            let p = neighbor_pos(&cfg, pos, UVec2::new(rx, ry));
            assert!(p == pos || in_reach(&cfg, pos, p));
        }
    }
}
