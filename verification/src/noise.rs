//! A seeded two-dimensional coherent-noise sampler.
//!
//! The field hashes the corners of the unit lattice cell around a sample
//! position to values in `[0, 2*FP]` and interpolates them bilinearly, so
//! nearby positions share lattice corners and the field varies gradually.
//! Positions are fixed-point numbers ([`crate::FP`] sub-units per lattice
//! cell); a sample is a fixed-point value in `[-FP, FP]`, standing for a
//! real number in about `[-1, 1]`. Sampling is a pure function of the seed
//! and the position.

use vstd::arithmetic::div_mod::{lemma_div_is_ordered, lemma_div_multiples_vanish, lemma_div_pos_is_pos};
use vstd::arithmetic::mul::lemma_mul_upper_bound;
use vstd::prelude::*;

use crate::rng::spec_mix;
use crate::FP;

verus! {

/// The largest position magnitude the sampler accepts.
pub const POS_MAX: i64 = 0x10_0000_0000;

/// The shift that makes every accepted position nonnegative before the
/// lattice cell and the fractional part are split off.
pub const POS_SHIFT: i64 = 0x20_0000_0000;

/// The lattice-key multiplier for the x axis.
pub const CELL_X: u64 = 0x9E97_0E99_27F3_B5C5;

/// The lattice-key multiplier for the y axis.
pub const CELL_Y: u64 = 0xD864_B8D9_626B_1257;

/// The hashed value of one lattice corner: a number in `[0, 2*FP]`.
pub open spec fn spec_cell_value(seed: u64, xi: u64, yi: u64) -> int {
    spec_mix(seed.wrapping_add(xi.wrapping_mul(CELL_X)).wrapping_add(yi.wrapping_mul(CELL_Y))) as int
        % (2 * FP + 1)
}

/// The biased sample at a fixed-point position: bilinear interpolation of
/// the four surrounding lattice corners, a number in `[0, 2*FP]`.
#[verifier::opaque]
pub open spec fn spec_sample_biased(seed: u64, x_fp: i64, y_fp: i64) -> int {
    let ux = x_fp + POS_SHIFT;
    let uy = y_fp + POS_SHIFT;
    let xi = (ux / (FP as int)) as u64;
    let yi = (uy / (FP as int)) as u64;
    let fx = ux % (FP as int);
    let fy = uy % (FP as int);
    let v00 = spec_cell_value(seed, xi, yi);
    let v10 = spec_cell_value(seed, (xi + 1) as u64, yi);
    let v01 = spec_cell_value(seed, xi, (yi + 1) as u64);
    let v11 = spec_cell_value(seed, (xi + 1) as u64, (yi + 1) as u64);
    let n0 = (v00 * (FP - fx) + v10 * fx) / (FP as int);
    let n1 = (v01 * (FP - fx) + v11 * fx) / (FP as int);
    (n0 * (FP - fy) + n1 * fy) / (FP as int)
}

/// The sample at a fixed-point position: a number in `[-FP, FP]`.
pub open spec fn spec_sample(seed: u64, x_fp: i64, y_fp: i64) -> int {
    spec_sample_biased(seed, x_fp, y_fp) - FP
}

/// A linear interpolation of two values in `[0, m]` with a weight in
/// `[0, FP]` stays in `[0, m]`.
proof fn lemma_lerp_bound(a: int, b: int, t: int, m: int)
    requires
        0 <= a <= m,
        0 <= b <= m,
        0 <= t <= FP,
    ensures
        0 <= (a * (FP - t) + b * t) / (FP as int) <= m,
{
    lemma_mul_upper_bound(a, m, FP - t, FP - t);
    lemma_mul_upper_bound(b, m, t, t);
    assert(a * (FP - t) + b * t <= m * (FP - t) + m * t);
    assert(m * (FP - t) + m * t == m * (FP as int)) by (nonlinear_arith);
    lemma_div_is_ordered(a * (FP - t) + b * t, m * (FP as int), FP as int);
    lemma_div_multiples_vanish(m, FP as int);
    assert(a * (FP - t) >= 0) by (nonlinear_arith)
        requires
            0 <= a,
            t <= FP,
    ;
    assert(b * t >= 0) by (nonlinear_arith)
        requires
            0 <= b,
            0 <= t,
    ;
    lemma_div_pos_is_pos(a * (FP - t) + b * t, FP as int);
}

/// The hashed value of one lattice corner.
fn cell_value(seed: u64, xi: u64, yi: u64) -> (r: u64)
    ensures
        r == spec_cell_value(seed, xi, yi),
        r <= 2 * FP,
{
    let key = seed.wrapping_add(xi.wrapping_mul(CELL_X)).wrapping_add(yi.wrapping_mul(CELL_Y));
    let h = crate::rng::mix(key);
    h % (2 * (FP as u64) + 1)
}

/// A seeded two-dimensional coherent-noise field.
pub struct NoiseField {
    /// The seed that selects the field.
    pub seed: u64,
}

impl NoiseField {
    /// Makes the field selected by the given seed.
    pub fn new(seed: u64) -> (r: NoiseField)
        ensures
            r.seed == seed,
    {
        NoiseField { seed }
    }

    /// The biased sample at a fixed-point position: a number in `[0, 2*FP]`.
    ///
    /// This is the raw form the patch shaper scales by an amplitude; the
    /// signed form is [`NoiseField::sample`].
    pub fn sample_biased(&self, x_fp: i64, y_fp: i64) -> (r: u64)
        requires
            -POS_MAX <= x_fp <= POS_MAX,
            -POS_MAX <= y_fp <= POS_MAX,
        ensures
            r == spec_sample_biased(self.seed, x_fp, y_fp),
            r <= 2 * FP,
    {
        proof {
            reveal(spec_sample_biased);
        }
        let ux = (x_fp + POS_SHIFT) as u64;
        let uy = (y_fp + POS_SHIFT) as u64;
        let xi = ux / (FP as u64);
        let yi = uy / (FP as u64);
        let fx = ux % (FP as u64);
        let fy = uy % (FP as u64);
        let v00 = cell_value(self.seed, xi, yi);
        let v10 = cell_value(self.seed, xi + 1, yi);
        let v01 = cell_value(self.seed, xi, yi + 1);
        let v11 = cell_value(self.seed, xi + 1, yi + 1);
        proof {
            lemma_lerp_bound(v00 as int, v10 as int, fx as int, 2 * FP);
            lemma_lerp_bound(v01 as int, v11 as int, fx as int, 2 * FP);
        }
        let n0 = (v00 * ((FP as u64) - fx) + v10 * fx) / (FP as u64);
        let n1 = (v01 * ((FP as u64) - fx) + v11 * fx) / (FP as u64);
        proof {
            lemma_lerp_bound(n0 as int, n1 as int, fy as int, 2 * FP);
        }
        (n0 * ((FP as u64) - fy) + n1 * fy) / (FP as u64)
    }

    /// The sample at a fixed-point position: a number in `[-FP, FP]`,
    /// standing for a real number in about `[-1, 1]`. Deterministic: equal
    /// seeds and positions give equal samples.
    pub fn sample(&self, x_fp: i64, y_fp: i64) -> (r: i64)
        requires
            -POS_MAX <= x_fp <= POS_MAX,
            -POS_MAX <= y_fp <= POS_MAX,
        ensures
            r == spec_sample(self.seed, x_fp, y_fp),
            -FP <= r <= FP,
    {
        let biased = self.sample_biased(x_fp, y_fp);
        (biased as i64) - FP
    }
}

} // verus!
