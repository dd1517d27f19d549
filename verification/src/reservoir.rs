//! Reservoirs for weighted resampling of light samples.
//!
//! A reservoir sees a stream of candidates, each with a weight, and keeps one
//! of them. Which one it keeps is decided by numbers drawn by the caller: a
//! candidate of weight `w` that raises the sum of weights to `s` replaces
//! the kept sample if the number drawn for it, from `[0, s)`, is below `w`.

use vstd::prelude::*;
use crate::fixed::{mul_saturating, spec_mul, spec_saturate};
use crate::uvec::UVec4;

verus! {

/// A light sample.
#[derive(Clone, Copy, Debug, PartialEq, Eq, Structural)]
pub struct DiSample {
    /// Index of the light in the scene's list of lights.
    pub light_id: u32,
}

/// A reservoir of light samples.
#[derive(Clone, Copy, Debug, PartialEq, Eq, Structural)]
pub struct DiReservoir {
    /// The sample that is kept.
    pub sample: DiSample,
    /// Sum of the weights of all candidates seen, Q16.16.
    pub w_sum: u64,
    /// Number of candidates seen.
    pub m: u32,
    /// The weight with which the kept sample enters the pixel's radiance,
    /// Q16.16; set by `normalize`.
    pub w: u64,
}

/// `v` as a number drawn from `[0, total)`: the `u64` number `random`,
/// scaled down from `[0, 2^64)`.
pub open spec fn spec_scale_draw(random: u64, total: u64) -> int {
    random * total / 0x1_0000_0000_0000_0000
}

/// Scales a random `u64` to a draw for a sum of weights of `total`.
pub fn scale_draw(random: u64, total: u64) -> (r: u64)
    ensures
        r == spec_scale_draw(random, total),
        total > 0 ==> r < total,
        total == 0 ==> r == 0,
{
    assert(0 <= random * total <= (0x1_0000_0000_0000_0000 - 1) * total) by (nonlinear_arith)
        requires
            0 <= random <= 0x1_0000_0000_0000_0000 - 1,
            0 <= total,
    ;
    assert((0x1_0000_0000_0000_0000 - 1) * total <= (0x1_0000_0000_0000_0000 - 1) * (
    0x1_0000_0000_0000_0000 - 1)) by (nonlinear_arith)
        requires
            0 <= total <= 0x1_0000_0000_0000_0000 - 1,
    ;
    assert(total == 0 ==> random * total == 0) by (nonlinear_arith);
    ((random as u128) * (total as u128) / 0x1_0000_0000_0000_0000) as u64
}

/// The weight with which a reservoir enters another one: the target
/// function `p_hat` of its sample at the receiving pixel, times its own
/// weight `w`, times the number `m` of candidates it stands for. Each
/// product saturates.
pub open spec fn spec_merge_weight(p_hat: u64, w: u64, m: u32) -> int {
    spec_saturate(spec_saturate(spec_mul(p_hat as int, w as int)) * m)
}

/// `w_sum / (m * p_hat)` as a Q16.16 number, rounded down and saturated;
/// zero where the quotient has no meaning.
pub open spec fn spec_weight(w_sum: u64, m: u32, p_hat: u64) -> int {
    if m == 0 || p_hat == 0 {
        0
    } else {
        spec_saturate(w_sum * 65536 / (m * p_hat))
    }
}

impl DiReservoir {
    /// The reservoir that has seen nothing.
    pub open spec fn spec_empty() -> DiReservoir {
        DiReservoir { sample: DiSample { light_id: 0 }, w_sum: 0, m: 0, w: 0 }
    }

    /// The reservoir after a candidate that stands for `m` candidates.
    pub open spec fn spec_update(self, sample: DiSample, weight: u64, m: u32, draw: u64)
        -> DiReservoir {
        DiReservoir {
            sample: if draw < weight {
                sample
            } else {
                self.sample
            },
            w_sum: spec_saturate(self.w_sum + weight) as u64,
            m: if self.m + m > u32::MAX {
                u32::MAX
            } else {
                (self.m + m) as u32
            },
            w: self.w,
        }
    }

    /// The reservoir after one more candidate.
    pub open spec fn spec_add(self, sample: DiSample, weight: u64, draw: u64) -> DiReservoir {
        self.spec_update(sample, weight, 1, draw)
    }

    /// The reservoir after it took in another reservoir.
    pub open spec fn spec_merge(self, other: DiReservoir, p_hat: u64, draw: u64) -> DiReservoir {
        self.spec_update(
            other.sample,
            spec_merge_weight(p_hat, other.w, other.m) as u64,
            other.m,
            draw,
        )
    }

    /// The reservoir with its history cut down to `cap` candidates: the sum
    /// of weights shrinks in proportion, rounded down.
    pub open spec fn spec_clamp(self, cap: u32) -> DiReservoir {
        if self.m > cap {
            DiReservoir { w_sum: (self.w_sum * cap / (self.m as int)) as u64, m: cap, ..self }
        } else {
            self
        }
    }

    /// The reservoir with `w` set for a kept sample whose target function
    /// is `p_hat`.
    pub open spec fn spec_normalize(self, p_hat: u64) -> DiReservoir {
        DiReservoir { w: spec_weight(self.w_sum, self.m, p_hat) as u64, ..self }
    }

    /// Whether `w` is what the sum of weights, the count and the target
    /// function of the kept sample give.
    pub open spec fn spec_is_normalized(self, p_hat: u64) -> bool {
        self.w == spec_weight(self.w_sum, self.m, p_hat)
    }

    pub fn empty() -> (r: DiReservoir)
        ensures
            r == Self::spec_empty(),
    {
        DiReservoir { sample: DiSample { light_id: 0 }, w_sum: 0, m: 0, w: 0 }
    }

    pub fn is_empty(&self) -> (r: bool)
        ensures
            r == (self.m == 0),
    {
        self.m == 0
    }

    /// Takes in a candidate that stands for `m` candidates. Returns whether
    /// it replaced the kept sample, which it does if and only if `draw` is
    /// below its weight. The sum of weights and the count saturate.
    pub fn update(&mut self, sample: DiSample, weight: u64, m: u32, draw: u64) -> (accepted: bool)
        ensures
            *final(self) == old(self).spec_update(sample, weight, m, draw),
            accepted == (draw < weight),
    {
        self.w_sum = self.w_sum.saturating_add(weight);
        self.m = self.m.saturating_add(m);
        if draw < weight {
            self.sample = sample;
            true
        } else {
            false
        }
    }

    /// Takes in one candidate.
    pub fn add(&mut self, sample: DiSample, weight: u64, draw: u64) -> (accepted: bool)
        ensures
            *final(self) == old(self).spec_add(sample, weight, draw),
            accepted == (draw < weight),
    {
        self.update(sample, weight, 1, draw)
    }

    /// The weight with which this reservoir enters another one.
    pub fn merge_weight(&self, p_hat: u64) -> (r: u64)
        ensures
            r == spec_merge_weight(p_hat, self.w, self.m),
            self.m == 0 ==> r == 0,
    {
        let per_candidate: u64 = mul_saturating(p_hat, self.w);
        assert(0 <= per_candidate * self.m <= 0xffff_ffff_ffff_ffff * 0xffff_ffff)
            by (nonlinear_arith)
            requires
                0 <= per_candidate <= 0xffff_ffff_ffff_ffff,
                0 <= self.m <= 0xffff_ffff,
        ;
        assert(self.m == 0 ==> per_candidate * self.m == 0) by (nonlinear_arith);
        let wide: u128 = (per_candidate as u128) * (self.m as u128);
        if wide > u64::MAX as u128 {
            u64::MAX
        } else {
            wide as u64
        }
    }

    /// Takes in another reservoir, whose kept sample has the target function
    /// `p_hat` at this reservoir's pixel. Returns whether the other's sample
    /// replaced the kept one.
    pub fn merge(&mut self, other: &DiReservoir, p_hat: u64, draw: u64) -> (accepted: bool)
        ensures
            *final(self) == old(self).spec_merge(*other, p_hat, draw),
            accepted == (draw < spec_merge_weight(p_hat, other.w, other.m)),
            other.m == 0 ==> !accepted && *final(self) == *old(self),
    {
        let weight: u64 = other.merge_weight(p_hat);
        self.update(other.sample, weight, other.m, draw)
    }

    /// Cuts the history down to `cap` candidates.
    pub fn clamp_m(&mut self, cap: u32)
        ensures
            *final(self) == old(self).spec_clamp(cap),
            final(self).m <= cap,
            final(self).m <= old(self).m,
            final(self).w_sum <= old(self).w_sum,
    {
        if self.m > cap {
            let m: u32 = self.m;
            let w_sum: u64 = self.w_sum;
            assert(0 <= w_sum * cap <= w_sum * m) by (nonlinear_arith)
                requires
                    0 <= w_sum,
                    0 <= cap <= m,
            ;
            assert(w_sum * m <= 0xffff_ffff_ffff_ffff * 0xffff_ffff) by (nonlinear_arith)
                requires
                    0 <= w_sum <= 0xffff_ffff_ffff_ffff,
                    0 <= m <= 0xffff_ffff,
            ;
            assert(w_sum * cap / (m as int) <= w_sum) by (nonlinear_arith)
                requires
                    0 <= w_sum * cap <= w_sum * m,
                    m > 0,
            ;
            assert(w_sum * cap / (m as int) >= 0) by (nonlinear_arith)
                requires
                    0 <= w_sum * cap,
                    m > 0,
            ;
            self.w_sum = ((w_sum as u128) * (cap as u128) / (m as u128)) as u64;
            self.m = cap;
        }
    }

    /// Sets `w` from the sum of weights, the count and the target function
    /// `p_hat` of the kept sample.
    pub fn normalize(&mut self, p_hat: u64)
        ensures
            *final(self) == old(self).spec_normalize(p_hat),
            final(self).spec_is_normalized(p_hat),
    {
        if self.m == 0 || p_hat == 0 {
            self.w = 0;
        } else {
            let m: u32 = self.m;
            assert(0 < m * p_hat <= 0xffff_ffff * 0xffff_ffff_ffff_ffff) by (nonlinear_arith)
                requires
                    0 < m <= 0xffff_ffff,
                    0 < p_hat <= 0xffff_ffff_ffff_ffff,
            ;
            let num: u128 = (self.w_sum as u128) * 65536;
            let den: u128 = (m as u128) * (p_hat as u128);
            let wide: u128 = num / den;
            self.w = if wide > u64::MAX as u128 {
                u64::MAX
            } else {
                wide as u64
            };
        }
    }

    /// The two buffer slots that hold a reservoir: the sum of weights and
    /// `w`, low word first, then the light and the count.
    pub open spec fn spec_pack(self) -> (UVec4, UVec4) {
        (
            UVec4 {
                x: (self.w_sum % 0x1_0000_0000) as u32,
                y: (self.w_sum / 0x1_0000_0000) as u32,
                z: (self.w % 0x1_0000_0000) as u32,
                w: (self.w / 0x1_0000_0000) as u32,
            },
            UVec4 { x: self.sample.light_id, y: self.m, z: 0, w: 0 },
        )
    }

    /// The reservoir that two buffer slots hold.
    pub open spec fn spec_unpack(d0: UVec4, d1: UVec4) -> DiReservoir {
        DiReservoir {
            sample: DiSample { light_id: d1.x },
            w_sum: (d0.y * 0x1_0000_0000 + d0.x) as u64,
            m: d1.y,
            w: (d0.w * 0x1_0000_0000 + d0.z) as u64,
        }
    }

    /// What reading slot `idx` of a buffer gives: the reservoir stored
    /// there, or the empty one where the buffer ends before it.
    pub open spec fn spec_read(buffer: Seq<UVec4>, idx: int) -> DiReservoir {
        if 0 <= idx && 2 * idx + 1 < buffer.len() {
            Self::spec_unpack(buffer[2 * idx], buffer[2 * idx + 1])
        } else {
            Self::spec_empty()
        }
    }

    /// What writing to slot `idx` makes of a buffer: nothing changes where
    /// the buffer ends before the slot.
    pub open spec fn spec_write(self, buffer: Seq<UVec4>, idx: int) -> Seq<UVec4> {
        if 0 <= idx && 2 * idx + 1 < buffer.len() {
            buffer.update(2 * idx, self.spec_pack().0).update(2 * idx + 1, self.spec_pack().1)
        } else {
            buffer
        }
    }

    pub fn pack(&self) -> (r: (UVec4, UVec4))
        ensures
            r == self.spec_pack(),
    {
        (
            UVec4 {
                x: (self.w_sum % 0x1_0000_0000) as u32,
                y: (self.w_sum / 0x1_0000_0000) as u32,
                z: (self.w % 0x1_0000_0000) as u32,
                w: (self.w / 0x1_0000_0000) as u32,
            },
            UVec4 { x: self.sample.light_id, y: self.m, z: 0, w: 0 },
        )
    }

    pub fn unpack(d0: UVec4, d1: UVec4) -> (r: DiReservoir)
        ensures
            r == Self::spec_unpack(d0, d1),
    {
        DiReservoir {
            sample: DiSample { light_id: d1.x },
            w_sum: (d0.y as u64) * 0x1_0000_0000 + (d0.x as u64),
            m: d1.y,
            w: (d0.w as u64) * 0x1_0000_0000 + (d0.z as u64),
        }
    }

    /// A buffer for the reservoirs of `pixels` pixels, all of them empty: no
    /// history is left where buffers are made anew.
    pub fn allocate(pixels: usize) -> (buffer: Vec<UVec4>)
        requires
            2 * pixels <= usize::MAX,
        ensures
            buffer@.len() == 2 * pixels,
            forall|idx: int| #[trigger] Self::spec_read(buffer@, idx) == Self::spec_empty(),
    {
        let mut buffer: Vec<UVec4> = Vec::new();
        let mut i: usize = 0;
        while i < pixels
            invariant
                i <= pixels,
                2 * pixels <= usize::MAX,
                buffer@.len() == 2 * i,
                forall|k: int|
                    0 <= k < buffer@.len() ==> buffer@[k] == (UVec4 { x: 0, y: 0, z: 0, w: 0 }),
            decreases pixels - i,
        {
            buffer.push(UVec4 { x: 0, y: 0, z: 0, w: 0 });
            buffer.push(UVec4 { x: 0, y: 0, z: 0, w: 0 });
            i = i + 1;
        }
        buffer
    }

    /// Reads the reservoir of pixel `idx`.
    pub fn read(buffer: &Vec<UVec4>, idx: u64) -> (r: DiReservoir)
        ensures
            r == Self::spec_read(buffer@, idx as int),
    {
        let len: u64 = buffer.len() as u64;
        if idx < len / 2 {
            let at: usize = (2 * idx) as usize;
            Self::unpack(buffer[at], buffer[at + 1])
        } else {
            Self::empty()
        }
    }

    /// Writes the reservoir of pixel `idx`.
    pub fn write(&self, buffer: &mut Vec<UVec4>, idx: u64)
        ensures
            final(buffer)@ == self.spec_write(old(buffer)@, idx as int),
            final(buffer)@.len() == old(buffer)@.len(),
    {
        let len: u64 = buffer.len() as u64;
        if idx < len / 2 {
            let at: usize = (2 * idx) as usize;
            let d = self.pack();
            buffer.set(at, d.0);
            buffer.set(at + 1, d.1);
        }
    }

    /// Unpacking gives back what was packed.
    pub proof fn lemma_unpack_pack(r: DiReservoir)
        ensures
            Self::spec_unpack(r.spec_pack().0, r.spec_pack().1) == r,
    {
    }

    /// A slot reads back what was written to it, as long as the buffer
    /// holds the slot, and a write leaves every other slot as it was.
    pub proof fn lemma_read_write(r: DiReservoir, buffer: Seq<UVec4>, idx: int, other: int)
        requires
            0 <= idx,
            0 <= other,
        ensures
            2 * idx + 1 < buffer.len() ==> Self::spec_read(r.spec_write(buffer, idx), idx) == r,
            other != idx ==> Self::spec_read(r.spec_write(buffer, idx), other) == Self::spec_read(
                buffer,
                other,
            ),
    {
        Self::lemma_unpack_pack(r);
    }

    /// Taking in an empty reservoir changes nothing.
    pub proof fn lemma_merge_empty(r: DiReservoir, other: DiReservoir, p_hat: u64, draw: u64)
        requires
            other.m == 0,
        ensures
            r.spec_merge(other, p_hat, draw) == r,
    {
        assert(spec_saturate(spec_mul(p_hat as int, other.w as int)) * 0 == 0);
    }
}

} // verus!
