//! Streams of candidates, and the odds with which a reservoir keeps each.

use vstd::prelude::*;
use crate::light::LightsView;
use crate::reservoir::{scale_draw, spec_scale_draw, DiReservoir, DiSample};

verus! {

/// A light sample with its resampling weight, Q16.16.
#[derive(Clone, Copy, Debug, PartialEq, Eq, Structural)]
pub struct Candidate {
    pub sample: DiSample,
    pub weight: u64,
}

/// The `i`-th of a list of draws; zero where the list ends before it.
pub open spec fn spec_draw(draws: Seq<u64>, i: int) -> u64 {
    if 0 <= i < draws.len() {
        draws[i]
    } else {
        0
    }
}

/// The reservoir after the candidates of a stream from the `i`-th on,
/// each decided by the draw of its own number.
pub open spec fn spec_stream_from(
    r: DiReservoir,
    candidates: Seq<Candidate>,
    draws: Seq<u64>,
    i: int,
) -> DiReservoir
    decreases candidates.len() - i,
{
    if i < 0 || i >= candidates.len() {
        r
    } else {
        spec_stream_from(
            r.spec_add(candidates[i].sample, candidates[i].weight, spec_draw(draws, i)),
            candidates,
            draws,
            i + 1,
        )
    }
}

/// The reservoir after a stream of candidates, the `i`-th decided by the
/// `i`-th draw.
pub open spec fn spec_stream(r: DiReservoir, candidates: Seq<Candidate>, draws: Seq<u64>)
    -> DiReservoir {
    spec_stream_from(r, candidates, draws, 0)
}

/// Sum of the weights of a stream.
pub open spec fn spec_weight_sum(candidates: Seq<Candidate>) -> int
    decreases candidates.len(),
{
    if candidates.len() == 0 {
        0
    } else {
        candidates[0].weight + spec_weight_sum(candidates.drop_first())
    }
}

/// Sum of the weights of those candidates of a stream that carry the
/// sample `k`.
pub open spec fn spec_weight_of(candidates: Seq<Candidate>, k: DiSample) -> int
    decreases candidates.len(),
{
    if candidates.len() == 0 {
        0
    } else {
        (if candidates[0].sample == k {
            candidates[0].weight as int
        } else {
            0
        }) + spec_weight_of(candidates.drop_first(), k)
    }
}

/// Number of ways to draw for a stream: the draw for each candidate ranges
/// over as many numbers as the sum of weights that the candidate brings
/// about, so the ways are the product of these running sums.
pub open spec fn spec_outcomes(w_sum: int, candidates: Seq<Candidate>) -> int
    decreases candidates.len(),
{
    if candidates.len() == 0 {
        1
    } else {
        (w_sum + candidates[0].weight) * spec_outcomes(
            w_sum + candidates[0].weight,
            candidates.drop_first(),
        )
    }
}

/// Number of ways to draw for a stream that leave the reservoir with the
/// sample `k`.
pub open spec fn spec_ways(r: DiReservoir, candidates: Seq<Candidate>, k: DiSample) -> int
    decreases candidates.len(), 1int, 0int,
{
    if candidates.len() == 0 {
        if r.sample == k {
            1
        } else {
            0
        }
    } else {
        spec_ways_below(r, candidates, k, r.w_sum + candidates[0].weight)
    }
}

/// The same number, counting only the ways whose first draw is below `n`.
pub open spec fn spec_ways_below(r: DiReservoir, candidates: Seq<Candidate>, k: DiSample, n: int)
    -> int
    decreases candidates.len(), 0int, n,
{
    if candidates.len() == 0 || n <= 0 {
        0
    } else {
        spec_ways_below(r, candidates, k, n - 1) + spec_ways(
            r.spec_add(candidates[0].sample, candidates[0].weight, (n - 1) as u64),
            candidates.drop_first(),
            k,
        )
    }
}

/// The number of lights that a sample can name: that of the list, or
/// `u32::MAX` where the list is longer.
pub open spec fn spec_light_count(lights: Seq<crate::light::Light>) -> u64 {
    if lights.len() > u32::MAX {
        u32::MAX as u64
    } else {
        lights.len() as u64
    }
}

/// Picks a light for a candidate with a random number, each light as
/// likely as any other. Without lights there is no candidate.
pub fn pick_light(lights: &LightsView, random: u64) -> (r: Option<DiSample>)
    ensures
        r is None <==> lights@.len() == 0,
        r matches Some(sample) ==> sample.light_id == spec_scale_draw(
            random,
            spec_light_count(lights@),
        ) && sample.light_id < lights@.len(),
{
    let len: usize = lights.len();
    if len == 0 {
        return None;
    }
    let count: u64 = if len > u32::MAX as usize {
        u32::MAX as u64
    } else {
        len as u64
    };
    let light_id: u64 = scale_draw(random, count);
    Some(DiSample { light_id: light_id as u32 })
}

/// Feeds a stream of candidates to a reservoir, each with its draw.
pub fn insert_all(r: &mut DiReservoir, candidates: &Vec<Candidate>, draws: &Vec<u64>)
    ensures
        *final(r) == spec_stream(*old(r), candidates@, draws@),
{
    let mut i: usize = 0;
    while i < candidates.len()
        invariant
            i <= candidates.len(),
            spec_stream(*old(r), candidates@, draws@) == spec_stream_from(
                *r,
                candidates@,
                draws@,
                i as int,
            ),
        decreases candidates.len() - i,
    {
        let draw: u64 = if i < draws.len() {
            draws[i]
        } else {
            0
        };
        r.add(candidates[i].sample, candidates[i].weight, draw);
        i = i + 1;
    }
}

/// A stream without candidates leaves a reservoir as it is.
pub proof fn lemma_stream_of_nothing(r: DiReservoir, draws: Seq<u64>)
    ensures
        spec_stream(r, Seq::empty(), draws) == r,
{
}

/// Sums of weights are not negative, and no part exceeds the whole.
pub proof fn lemma_weight_sums(candidates: Seq<Candidate>, k: DiSample)
    ensures
        0 <= spec_weight_of(candidates, k) <= spec_weight_sum(candidates),
    decreases candidates.len(),
{
    if candidates.len() > 0 {
        lemma_weight_sums(candidates.drop_first(), k);
    }
}

/// The reservoir after a first candidate whose draw was not below its
/// weight.
spec fn spec_rejected(r: DiReservoir, c: Candidate) -> DiReservoir {
    r.spec_add(c.sample, c.weight, u64::MAX)
}

/// The reservoir after a first candidate whose draw was below its weight.
spec fn spec_accepted(r: DiReservoir, c: Candidate) -> DiReservoir {
    DiReservoir { sample: c.sample, ..spec_rejected(r, c) }
}

/// Of the first draws below `n`, those below the candidate's weight accept
/// it and the others do not; what follows depends on nothing else.
proof fn lemma_ways_below(r: DiReservoir, candidates: Seq<Candidate>, k: DiSample, n: int)
    requires
        candidates.len() > 0,
        0 <= n <= r.w_sum + candidates[0].weight <= u64::MAX,
    ensures
        spec_ways_below(r, candidates, k, n) == (if n < candidates[0].weight {
            n
        } else {
            candidates[0].weight as int
        }) * spec_ways(spec_accepted(r, candidates[0]), candidates.drop_first(), k) + (if n
            < candidates[0].weight {
            0
        } else {
            n - candidates[0].weight
        }) * spec_ways(spec_rejected(r, candidates[0]), candidates.drop_first(), k),
    decreases n,
{
    let c = candidates[0];
    let rest = candidates.drop_first();
    let a = spec_ways(spec_accepted(r, c), rest, k);
    let b = spec_ways(spec_rejected(r, c), rest, k);
    if n > 0 {
        lemma_ways_below(r, candidates, k, n - 1);
        let d = (n - 1) as u64;
        let step = r.spec_add(c.sample, c.weight, d);
        if n - 1 < c.weight {
            assert(step == spec_accepted(r, c));
            assert(n * a == (n - 1) * a + a) by (nonlinear_arith);
        } else {
            assert(step == spec_rejected(r, c));
            assert((n - c.weight) * b == (n - 1 - c.weight) * b + b) by (nonlinear_arith);
        }
    } else {
        assert(0 * a == 0);
        assert(0 * b == 0);
    }
}

/// Weighted reservoir sampling keeps each sample with odds in proportion
/// to its weight. Of all ways to draw for a stream of candidates, the share
/// that leaves the reservoir with the sample `k` is the share that `k` has
/// in the sum of weights, counting the reservoir's earlier sum for the
/// sample that it held:
/// `ways / outcomes == weight of k / sum of weights`,
/// stated without division. The sum of weights must fit into `u64`.
pub proof fn lemma_selection_odds(r: DiReservoir, candidates: Seq<Candidate>, k: DiSample)
    requires
        r.w_sum + spec_weight_sum(candidates) <= u64::MAX,
    ensures
        spec_ways(r, candidates, k) * (r.w_sum + spec_weight_sum(candidates)) == spec_outcomes(
            r.w_sum as int,
            candidates,
        ) * ((if r.sample == k {
            r.w_sum as int
        } else {
            0
        }) + spec_weight_of(candidates, k)),
    decreases candidates.len(),
{
    if candidates.len() == 0 {
        let total = r.w_sum + spec_weight_sum(candidates);
        assert(total == r.w_sum);
        assert(spec_outcomes(r.w_sum as int, candidates) == 1);
        if r.sample == k {
            assert(spec_ways(r, candidates, k) == 1);
            assert(1 * total == 1 * (r.w_sum + 0));
        } else {
            assert(spec_ways(r, candidates, k) == 0);
            assert(0 * total == 1 * (0 + 0));
        }
    } else {
        let c = candidates[0];
        let rest = candidates.drop_first();
        lemma_weight_sums(rest, k);
        let rw = r.w_sum as int;
        let w = c.weight as int;
        let big = rw + w;
        let acc = spec_accepted(r, c);
        let rej = spec_rejected(r, c);
        assert(acc.w_sum == big && rej.w_sum == big);
        assert(acc.sample == c.sample && rej.sample == r.sample);
        lemma_ways_below(r, candidates, k, big);
        lemma_selection_odds(acc, rest, k);
        lemma_selection_odds(rej, rest, k);
        let a = spec_ways(acc, rest, k);
        let b = spec_ways(rej, rest, k);
        let total = big + spec_weight_sum(rest);
        let out = spec_outcomes(big, rest);
        let s = spec_weight_of(rest, k);
        let ways = spec_ways(r, candidates, k);
        assert(ways == w * a + rw * b);
        let ma = if c.sample == k {
            big
        } else {
            0
        };
        let mb = if r.sample == k {
            big
        } else {
            0
        };
        let mc = if c.sample == k {
            w
        } else {
            0
        };
        let mr = if r.sample == k {
            rw
        } else {
            0
        };
        assert(a * total == out * (ma + s));
        assert(b * total == out * (mb + s));
        assert(w * ma + rw * mb == big * (mc + mr)) by (nonlinear_arith)
            requires
                big == rw + w,
                (ma == big && mc == w) || (ma == 0 && mc == 0),
                (mb == big && mr == rw) || (mb == 0 && mr == 0),
        ;
        let at = a * total;
        let bt = b * total;
        let pa = ma + s;
        let pb = mb + s;
        let x = mc + mr + s;
        assert(ways * total == w * at + rw * bt) by (nonlinear_arith)
            requires
                ways == w * a + rw * b,
                at == a * total,
                bt == b * total,
        ;
        assert(w * at + rw * bt == out * (w * pa + rw * pb)) by (nonlinear_arith)
            requires
                at == out * pa,
                bt == out * pb,
        ;
        assert(w * pa + rw * pb == big * x) by (nonlinear_arith)
            requires
                w * ma + rw * mb == big * (mc + mr),
                pa == ma + s,
                pb == mb + s,
                x == mc + mr + s,
                big == rw + w,
        ;
        assert(out * (big * x) == (big * out) * x) by (nonlinear_arith);
        assert(r.w_sum + spec_weight_sum(candidates) == total);
        assert(spec_outcomes(r.w_sum as int, candidates) == big * out);
        assert(spec_weight_of(candidates, k) == mc + s);
        assert(ways * total == (big * out) * x);
        assert((if r.sample == k {
            r.w_sum as int
        } else {
            0
        }) + spec_weight_of(candidates, k) == x);
    }
}

/// From an empty reservoir, the share of the ways to draw that end with the
/// sample `k` is the weight of `k` over the sum of all weights.
pub proof fn lemma_selection_odds_from_empty(candidates: Seq<Candidate>, k: DiSample)
    requires
        spec_weight_sum(candidates) <= u64::MAX,
    ensures
        spec_ways(DiReservoir::spec_empty(), candidates, k) * spec_weight_sum(candidates)
            == spec_outcomes(0, candidates) * spec_weight_of(candidates, k),
{
    lemma_selection_odds(DiReservoir::spec_empty(), candidates, k);
}

} // verus!
