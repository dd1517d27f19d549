use strolle::reservoir::{scale_draw, DiReservoir, DiSample};
use strolle::sampling::{insert_all, Candidate};
use strolle::uvec::UVec4;

const ONE: u64 = 65536;

fn light(light_id: u32) -> DiSample {
    DiSample { light_id }
}

#[test]
fn empty_reservoir_has_seen_nothing() {
    let r = DiReservoir::empty();
    assert!(r.is_empty());
    assert_eq!(r, DiReservoir { sample: light(0), w_sum: 0, m: 0, w: 0 });
}

#[test]
fn a_candidate_is_kept_if_the_draw_is_below_its_weight() {
    let mut r = DiReservoir::empty();
    assert!(r.add(light(3), 10, 9));
    assert_eq!(r, DiReservoir { sample: light(3), w_sum: 10, m: 1, w: 0 });
    assert!(!r.add(light(4), 5, 5));
    assert_eq!(r, DiReservoir { sample: light(3), w_sum: 15, m: 2, w: 0 });
    assert!(r.add(light(5), 5, 4));
    assert_eq!(r, DiReservoir { sample: light(5), w_sum: 20, m: 3, w: 0 });
    // a candidate without weight is never kept, but counts
    assert!(!r.add(light(6), 0, 0));
    assert_eq!(r, DiReservoir { sample: light(5), w_sum: 20, m: 4, w: 0 });
    assert!(!r.is_empty());
}

#[test]
fn sums_and_counts_saturate() {
    let mut r = DiReservoir { sample: light(1), w_sum: u64::MAX - 1, m: u32::MAX - 1, w: 7 };
    r.update(light(2), 5, 3, 5);
    assert_eq!(r, DiReservoir { sample: light(1), w_sum: u64::MAX, m: u32::MAX, w: 7 });
}

#[test]
fn draws_scale_to_the_sum_of_weights() {
    assert_eq!(scale_draw(0, 10), 0);
    assert_eq!(scale_draw(u64::MAX, 10), 9);
    assert_eq!(scale_draw(1 << 63, 10), 5);
    assert_eq!(scale_draw(u64::MAX, 0), 0);
    assert_eq!(scale_draw(u64::MAX, u64::MAX), u64::MAX - 1);
    assert_eq!(scale_draw(u64::MAX / 3, 3), 0);
    assert_eq!(scale_draw(u64::MAX / 3 + 1, 3), 1);
}

#[test]
fn merge_weight_is_target_times_weight_times_count() {
    let r = DiReservoir { sample: light(1), w_sum: 0, m: 4, w: ONE / 2 };
    // 2.0 * 0.5 * 4
    assert_eq!(r.merge_weight(2 * ONE), 4 * ONE);
    assert_eq!(r.merge_weight(0), 0);
    let none = DiReservoir { sample: light(1), w_sum: 9, m: 0, w: ONE };
    assert_eq!(none.merge_weight(ONE), 0);
    let huge = DiReservoir { sample: light(1), w_sum: 0, m: u32::MAX, w: u64::MAX };
    assert_eq!(huge.merge_weight(u64::MAX), u64::MAX);
}

#[test]
fn merging_counts_all_candidates_of_the_other() {
    let mut r = DiReservoir { sample: light(1), w_sum: 3 * ONE, m: 2, w: ONE };
    let other = DiReservoir { sample: light(9), w_sum: 123, m: 4, w: ONE / 2 };
    // the other enters with weight 2.0 * 0.5 * 4 = 4.0
    assert!(!r.merge(&other, 2 * ONE, 4 * ONE));
    assert_eq!(r, DiReservoir { sample: light(1), w_sum: 7 * ONE, m: 6, w: ONE });
    assert!(r.merge(&other, 2 * ONE, 4 * ONE - 1));
    assert_eq!(r, DiReservoir { sample: light(9), w_sum: 11 * ONE, m: 10, w: ONE });
}

#[test]
fn merging_an_empty_reservoir_changes_nothing() {
    let before = DiReservoir { sample: light(1), w_sum: 3 * ONE, m: 2, w: ONE };
    let mut r = before;
    let other = DiReservoir { sample: light(9), w_sum: 55, m: 0, w: ONE };
    assert!(!r.merge(&other, 2 * ONE, 0));
    assert_eq!(r, before);
}

#[test]
fn normalizing_divides_the_sum_by_count_and_target() {
    let mut r = DiReservoir { sample: light(1), w_sum: 3 * ONE, m: 2, w: 0 };
    // 3.0 / (2 * 1.5)
    r.normalize(3 * ONE / 2);
    assert_eq!(r.w, ONE);
    // 3.0 / (2 * 4.0), rounded down
    r.normalize(4 * ONE);
    assert_eq!(r.w, 24576);
    r.normalize(0);
    assert_eq!(r.w, 0);
    let mut none = DiReservoir { sample: light(1), w_sum: 3 * ONE, m: 0, w: 5 };
    none.normalize(ONE);
    assert_eq!(none.w, 0);
    let mut huge = DiReservoir { sample: light(1), w_sum: u64::MAX, m: 1, w: 0 };
    huge.normalize(1);
    assert_eq!(huge.w, u64::MAX);
    assert_eq!(huge.w_sum, u64::MAX);
}

#[test]
fn clamping_shrinks_the_sum_in_proportion() {
    let mut r = DiReservoir { sample: light(1), w_sum: 100, m: 40, w: 9 };
    r.clamp_m(20);
    assert_eq!(r, DiReservoir { sample: light(1), w_sum: 50, m: 20, w: 9 });
    r.clamp_m(20);
    assert_eq!(r, DiReservoir { sample: light(1), w_sum: 50, m: 20, w: 9 });
    r.clamp_m(3);
    assert_eq!(r, DiReservoir { sample: light(1), w_sum: 7, m: 3, w: 9 });
    r.clamp_m(0);
    assert_eq!(r, DiReservoir { sample: light(1), w_sum: 0, m: 0, w: 9 });
}

#[test]
fn reservoirs_take_two_slots_each() {
    let r = DiReservoir {
        sample: light(0xdead_beef),
        w_sum: 0x0123_4567_89ab_cdef,
        m: 77,
        w: 0xfedc_ba98_7654_3210,
    };
    let d = r.pack();
    assert_eq!(d.0, UVec4 { x: 0x89ab_cdef, y: 0x0123_4567, z: 0x7654_3210, w: 0xfedc_ba98 });
    assert_eq!(d.1, UVec4 { x: 0xdead_beef, y: 77, z: 0, w: 0 });
    assert_eq!(DiReservoir::unpack(d.0, d.1), r);

    let zero = UVec4 { x: 0, y: 0, z: 0, w: 0 };
    let mut buffer = vec![zero; 7];
    r.write(&mut buffer, 1);
    assert_eq!(buffer[2], d.0);
    assert_eq!(buffer[3], d.1);
    assert_eq!(DiReservoir::read(&buffer, 1), r);
    assert_eq!(DiReservoir::read(&buffer, 0), DiReservoir::empty());
    assert_eq!(DiReservoir::read(&buffer, 2), DiReservoir::empty());
    // slot 3 would need eight words: reads are empty, writes do nothing
    let before = buffer.clone();
    r.write(&mut buffer, 3);
    assert_eq!(buffer, before);
    assert_eq!(DiReservoir::read(&buffer, 3), DiReservoir::empty());
    r.write(&mut buffer, u64::MAX);
    assert_eq!(buffer, before);
    assert_eq!(DiReservoir::read(&buffer, u64::MAX), DiReservoir::empty());
}

#[test]
fn a_stream_is_decided_draw_by_draw() {
    let candidates = vec![
        Candidate { sample: light(1), weight: 1 },
        Candidate { sample: light(2), weight: 2 },
        Candidate { sample: light(3), weight: 3 },
    ];
    let mut r = DiReservoir::empty();
    insert_all(&mut r, &candidates, &vec![0, 2, 2]);
    assert_eq!(r, DiReservoir { sample: light(3), w_sum: 6, m: 3, w: 0 });
    let mut r = DiReservoir::empty();
    insert_all(&mut r, &candidates, &vec![0, 1, 3]);
    assert_eq!(r.sample, light(2));
    // missing draws count as zero
    let mut r = DiReservoir::empty();
    insert_all(&mut r, &candidates, &vec![0, 2]);
    assert_eq!(r.sample, light(3));
}

#[test]
fn samples_are_kept_in_proportion_to_their_weights() {
    let candidates = vec![
        Candidate { sample: light(1), weight: 1 },
        Candidate { sample: light(2), weight: 2 },
        Candidate { sample: light(3), weight: 3 },
    ];
    // every way to draw: the i-th draw ranges over the i-th running sum
    let mut kept = [0u32; 4];
    let mut outcomes = 0;
    for d0 in 0..1 {
        for d1 in 0..3 {
            for d2 in 0..6 {
                let mut r = DiReservoir::empty();
                insert_all(&mut r, &candidates, &vec![d0, d1, d2]);
                kept[r.sample.light_id as usize] += 1;
                outcomes += 1;
            }
        }
    }
    assert_eq!(outcomes, 18);
    assert_eq!(kept, [0, 3, 6, 9]);
}

#[test]
fn samples_are_kept_in_proportion_over_many_seeded_trials() {
    let weights = [5u64, 1, 10, 4];
    let candidates: Vec<Candidate> = weights
        .iter()
        .enumerate()
        .map(|(i, &weight)| Candidate { sample: light(i as u32), weight })
        .collect();
    let mut kept = [0u64; 4];
    let mut state: u64 = 0x9e37_79b9_7f4a_7c15;
    let trials = 200_000;
    for _ in 0..trials {
        let mut r = DiReservoir::empty();
        for c in candidates.iter() {
            state ^= state << 13;
            state ^= state >> 7;
            state ^= state << 17;
            let draw = scale_draw(state, r.w_sum + c.weight);
            r.add(c.sample, c.weight, draw);
        }
        kept[r.sample.light_id as usize] += 1;
    }
    for i in 0..4 {
        let expected = trials * weights[i] / 20;
        let off = if kept[i] > expected { kept[i] - expected } else { expected - kept[i] };
        assert!(off * 50 < trials, "light {}: kept {} of {}", i, kept[i], trials);
    }
}

#[test]
fn fresh_buffers_hold_no_history() {
    let buffer = DiReservoir::allocate(6);
    assert_eq!(buffer.len(), 12);
    for idx in 0..8 {
        assert_eq!(DiReservoir::read(&buffer, idx), DiReservoir::empty());
        assert_eq!(DiReservoir::read(&buffer, idx).m, 0);
    }
    assert!(DiReservoir::allocate(0).is_empty());
}
