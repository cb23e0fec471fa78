//! Travel curve: maps a raw hall-sensor sample to a calibrated travel
//! distance, in fixed-point arithmetic.
//!
//! The sensor response is a fitted cubic; pressing a key lowers the raw
//! reading, so the curve value grows as the sample falls.  The curve is
//! held here as a piecewise-linear table in 1/256 travel units, sampled
//! every 128 raw units and anchored so that the entry at the reference
//! rest position is exactly zero.

use vstd::prelude::*;
use vstd::arithmetic::div_mod::{
    lemma_div_is_ordered, lemma_div_is_ordered_by_denominator, lemma_div_pos_is_pos,
    lemma_fundamental_div_mod_converse,
};
use vstd::arithmetic::mul::{lemma_mul_inequality, lemma_mul_is_commutative};

verus! {

/// Expected travel distance of a full press, in physical units.
pub const FULL_TRAVEL_UNIT: u16 = 40;
/// Quantization factor applied to travel values.
pub const TRAVEL_SCALE: u16 = 6;
/// Full travel value after scaling.
pub const FULL_TRAVEL_SCALED: u16 = FULL_TRAVEL_UNIT * TRAVEL_SCALE;
/// Default raw-sample drop from rest to a nominal full press.
pub const DEFAULT_FULL_RANGE: u16 = 900;
/// Minimum acceptable raw sample.
pub const VALID_RAW_MIN: u16 = 1200;
/// Maximum acceptable raw sample.
pub const VALID_RAW_MAX: u16 = 3500;
/// Raw sample at the nominal rest position the curve is anchored to.
pub const REF_ZERO_TRAVEL: u16 = 3121;
/// Placeholder zero value for keys that have not been calibrated.
pub const UNCALIBRATED_ZERO: u16 = 3000;
/// Raw-sample delta below which a change is treated as noise.
pub const NOISE_GATE: u16 = 5;
/// Number of full matrix sweeps averaged during calibration.
pub const CALIB_PASSES: u32 = 8;
/// Fixed-point identity scale factor (Q16).
pub const SCALE_Q_FACTOR: i32 = 65536;
/// Numerator of the scale-factor quotient: full travel in curve units
/// times the fixed-point identity (40 * 256 * 65536).
pub const SCALE_NUMER: i64 = 40 * 256 * 65536;
/// Divisor that removes the curve (1/256) and scale-factor (Q16)
/// fixed-point factors from a travel product (256 * 65536).
pub const SCALE_DIVISOR: u64 = 256 * 65536;
/// Raw sample of the first curve table entry.
pub const CURVE_BASE: u16 = 1073;
/// Raw-sample distance between adjacent curve table entries.
pub const CURVE_STEP: u16 = 128;

/// Curve table: value of the fitted cubic at `CURVE_BASE + 128 * k`,
/// relative to its value at `REF_ZERO_TRAVEL`, in 1/256 travel units.
/// Entry 16 sits exactly at `REF_ZERO_TRAVEL` and is zero by
/// construction.  Out-of-table indices repeat the nearest end entry.
pub open spec fn curve_at(k: int) -> int {
    if k <= 0 {
        27083
    } else if k == 1 {
        22677
    } else if k == 2 {
        19083
    } else if k == 3 {
        16204
    } else if k == 4 {
        13944
    } else if k == 5 {
        12206
    } else if k == 6 {
        10895
    } else if k == 7 {
        9913
    } else if k == 8 {
        9165
    } else if k == 9 {
        8553
    } else if k == 10 {
        7982
    } else if k == 11 {
        7354
    } else if k == 12 {
        6574
    } else if k == 13 {
        5545
    } else if k == 14 {
        4171
    } else if k == 15 {
        2354
    } else if k == 16 {
        0
    } else if k == 17 {
        -2989
    } else if k == 18 {
        -6709
    } else {
        -11257
    }
}

/// The curve table never increases: deeper presses (lower samples,
/// lower indices) never map to less travel.
pub proof fn lemma_curve_antitone(i: int, j: int)
    requires
        i <= j,
    ensures
        curve_at(i) >= curve_at(j),
    decreases j - i,
{
    if i < j {
        lemma_curve_antitone(i, j - 1);
    }
}

/// Exec mirror of the curve table.
fn curve_entry(k: usize) -> (d: i32)
    ensures
        d as int == curve_at(k as int),
{
    if k == 0 {
        27083
    } else if k == 1 {
        22677
    } else if k == 2 {
        19083
    } else if k == 3 {
        16204
    } else if k == 4 {
        13944
    } else if k == 5 {
        12206
    } else if k == 6 {
        10895
    } else if k == 7 {
        9913
    } else if k == 8 {
        9165
    } else if k == 9 {
        8553
    } else if k == 10 {
        7982
    } else if k == 11 {
        7354
    } else if k == 12 {
        6574
    } else if k == 13 {
        5545
    } else if k == 14 {
        4171
    } else if k == 15 {
        2354
    } else if k == 16 {
        0
    } else if k == 17 {
        -2989
    } else if k == 18 {
        -6709
    } else {
        -11257
    }
}

/// Clamp a sample to the valid raw window before curve evaluation.
pub open spec fn clamp_to_valid(x: int) -> int {
    if x < VALID_RAW_MIN as int {
        VALID_RAW_MIN as int
    } else if x > VALID_RAW_MAX as int {
        VALID_RAW_MAX as int
    } else {
        x
    }
}

/// Curve value at sample `x` relative to the rest reference, in 1/256
/// travel units: piecewise-linear interpolation of the table over the
/// clamped valid window.
pub open spec fn spec_delta_from_ref(x: int) -> int {
    let off = clamp_to_valid(x) - CURVE_BASE as int;
    let k = off / CURVE_STEP as int;
    let frac = off % CURVE_STEP as int;
    curve_at(k) - ((curve_at(k) - curve_at(k + 1)) * frac) / CURVE_STEP as int
}

/// Linear interpolation drops at most one full table step.
proof fn lemma_interp_drop_bounds(diff: int, frac: int)
    requires
        0 <= diff,
        0 <= frac < 128,
    ensures
        0 <= (diff * frac) / 128 <= diff,
{
    lemma_mul_inequality(0, frac, diff);
    lemma_mul_inequality(frac, 127, diff);
}

/// Travel curve value relative to the rest reference for sample `x`,
/// clamped to the valid raw window.
pub fn delta_from_ref(x: u16) -> (d: i32)
    ensures
        d as int == spec_delta_from_ref(x as int),
        -11257 <= d as int <= 27083,
{
    let xc: u16 = if x < VALID_RAW_MIN {
        VALID_RAW_MIN
    } else if x > VALID_RAW_MAX {
        VALID_RAW_MAX
    } else {
        x
    };
    let off: u16 = xc - CURVE_BASE;
    let k: usize = (off / CURVE_STEP) as usize;
    let frac: u32 = (off % CURVE_STEP) as u32;
    let d0: i32 = curve_entry(k);
    let d1: i32 = curve_entry(k + 1);
    proof {
        lemma_curve_antitone(0, k as int);
        lemma_curve_antitone(k as int, k as int + 1);
        lemma_curve_antitone(k as int + 1, 19);
        lemma_interp_drop_bounds(d0 as int - d1 as int, frac as int);
    }
    let diff: u32 = (d0 - d1) as u32;
    let dropped: u32 = (diff * frac) / (CURVE_STEP as u32);
    d0 - (dropped as i32)
}

/// Pressing further never yields less curve travel: the interpolated
/// curve is non-increasing in the raw sample.
pub proof fn lemma_delta_antitone(x1: int, x2: int)
    requires
        x1 <= x2,
    ensures
        spec_delta_from_ref(x1) >= spec_delta_from_ref(x2),
{
    let xc1 = clamp_to_valid(x1);
    let xc2 = clamp_to_valid(x2);
    let off1 = xc1 - CURVE_BASE as int;
    let off2 = xc2 - CURVE_BASE as int;
    let k1 = off1 / CURVE_STEP as int;
    let k2 = off2 / CURVE_STEP as int;
    let f1 = off1 % CURVE_STEP as int;
    let f2 = off2 % CURVE_STEP as int;
    lemma_div_is_ordered(off1, off2, CURVE_STEP as int);
    lemma_curve_antitone(k1, k1 + 1);
    lemma_curve_antitone(k2, k2 + 1);
    let diff1 = curve_at(k1) - curve_at(k1 + 1);
    let diff2 = curve_at(k2) - curve_at(k2 + 1);
    lemma_interp_drop_bounds(diff1, f1);
    lemma_interp_drop_bounds(diff2, f2);
    if k1 == k2 {
        lemma_mul_inequality(f1, f2, diff1);
        lemma_mul_is_commutative(f1, diff1);
        lemma_mul_is_commutative(f2, diff1);
        lemma_div_is_ordered(diff1 * f1, diff1 * f2, CURVE_STEP as int);
    } else {
        lemma_curve_antitone(k1 + 1, k2);
    }
}

/// At or below the rest reference the curve delta is non-negative, and
/// at the reference itself it is exactly zero.
pub proof fn lemma_delta_nonneg_below_ref(x: int)
    requires
        x <= REF_ZERO_TRAVEL as int,
    ensures
        spec_delta_from_ref(x) >= 0,
        spec_delta_from_ref(REF_ZERO_TRAVEL as int) == 0,
{
    lemma_delta_antitone(x, REF_ZERO_TRAVEL as int);
    assert(clamp_to_valid(REF_ZERO_TRAVEL as int) == 3121);
    lemma_fundamental_div_mod_converse(2048, 128, 16, 0);
    assert(spec_delta_from_ref(REF_ZERO_TRAVEL as int) == 0);
}

/// Sample shifted so that this key's calibrated zero lines up with the
/// curve's rest reference.
pub open spec fn spec_shifted(zero: int, raw: int) -> int {
    raw - zero + REF_ZERO_TRAVEL as int
}

/// Whether the shifted sample is representable as a raw sample.
pub open spec fn spec_shift_ok(zero: int, raw: int) -> bool {
    0 <= spec_shifted(zero, raw) <= u16::MAX as int
}

/// Shift a raw sample by the key's zero offset, or report that the
/// shifted value cannot be represented.
pub fn apply_zero_offset(zero: u16, raw: u16) -> (r: Option<u16>)
    ensures
        spec_shift_ok(zero as int, raw as int) ==> r == Some(
            spec_shifted(zero as int, raw as int) as u16,
        ),
        !spec_shift_ok(zero as int, raw as int) ==> r is None,
{
    if zero >= REF_ZERO_TRAVEL {
        let off: u16 = zero - REF_ZERO_TRAVEL;
        if raw >= off {
            Some(raw - off)
        } else {
            None
        }
    } else {
        let off: u16 = REF_ZERO_TRAVEL - zero;
        if raw <= u16::MAX - off {
            Some(raw + off)
        } else {
            None
        }
    }
}

/// Scale factor turning curve deltas into physical travel units for a
/// key whose rest sample is `zero` and nominal full-press sample is
/// `full`.  Degenerate calibrations (unrepresentable shift, or zero
/// full-press delta) fall back to the fixed-point identity.
pub open spec fn spec_compute_scale_factor(zero: int, full: int) -> int {
    if !spec_shift_ok(zero, full) {
        SCALE_Q_FACTOR as int
    } else {
        let ft = spec_delta_from_ref(spec_shifted(zero, full));
        if ft == 0 {
            SCALE_Q_FACTOR as int
        } else if ft > 0 {
            SCALE_NUMER as int / ft
        } else {
            -(SCALE_NUMER as int / -ft)
        }
    }
}

/// Calibration degeneracy safety, bound half: for every pair of raw
/// samples the scale factor is a defined, finite value within the
/// quotient's numerator — no overflow, no undefined result.
pub proof fn lemma_scale_factor_bounded(zero: int, full: int)
    requires
        0 <= zero <= u16::MAX as int,
        0 <= full <= u16::MAX as int,
    ensures
        -(SCALE_NUMER as int) <= spec_compute_scale_factor(zero, full) <= SCALE_NUMER as int,
{
    if spec_shift_ok(zero, full) {
        let ft = spec_delta_from_ref(spec_shifted(zero, full));
        if ft > 0 {
            lemma_div_is_ordered_by_denominator(SCALE_NUMER as int, 1, ft);
            lemma_div_pos_is_pos(SCALE_NUMER as int, ft);
        } else if ft < 0 {
            lemma_div_is_ordered_by_denominator(SCALE_NUMER as int, 1, -ft);
            lemma_div_pos_is_pos(SCALE_NUMER as int, -ft);
        }
    }
}

/// Calibration degeneracy safety, neutral half: when the zero and
/// full-press samples coincide (zero travel range), the factor is the
/// fixed-point identity, not a division by zero.
pub proof fn lemma_scale_factor_neutral_on_equal(zero: int)
    requires
        0 <= zero <= u16::MAX as int,
    ensures
        spec_compute_scale_factor(zero, zero) == SCALE_Q_FACTOR as int,
{
    assert(spec_shifted(zero, zero) == REF_ZERO_TRAVEL as int);
    lemma_delta_nonneg_below_ref(REF_ZERO_TRAVEL as int);
}

/// Compute a key's fixed-point scale factor from its zero and
/// full-press calibration samples.  Total: every input yields a
/// defined, finite factor.
pub fn compute_scale_factor(zero: u16, full: u16) -> (f: i32)
    ensures
        f as int == spec_compute_scale_factor(zero as int, full as int),
{
    let x_full: u16 = match apply_zero_offset(zero, full) {
        Some(x) => x,
        None => {
            return SCALE_Q_FACTOR;
        },
    };
    let ft: i32 = delta_from_ref(x_full);
    if ft == 0 {
        SCALE_Q_FACTOR
    } else if ft > 0 {
        let q: u64 = (SCALE_NUMER as u64) / (ft as u64);
        q as i32
    } else {
        let m: u64 = (-ft) as u64;
        let q: u64 = (SCALE_NUMER as u64) / m;
        -(q as i32)
    }
}

} // verus!
