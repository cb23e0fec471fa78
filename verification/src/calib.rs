//! Per-key calibration records and scanner configuration.

use vstd::prelude::*;
use crate::travel::{
    compute_scale_factor, spec_compute_scale_factor, DEFAULT_FULL_RANGE, UNCALIBRATED_ZERO,
};

verus! {

/// Configuration parameters for hall-effect key sensing.
#[derive(Clone, Copy, Debug, PartialEq, Eq, Structural)]
pub struct HallCfg {
    /// Actuation point in travel units (before quantization).
    pub actuation_pt: u16,
    /// Offset below the actuation point required for de-actuation.
    pub deact_offset: u16,
    /// Microseconds to wait after selecting a column before sampling.
    pub settle_after_col_micros: u64,
}

impl Default for HallCfg {
    /// Default hall configuration: 40 us settle, actuation at 20 of 40
    /// travel units, release 3 units below that.
    fn default() -> (cfg: Self)
        ensures
            cfg == (HallCfg { actuation_pt: 20, deact_offset: 3, settle_after_col_micros: 40 }),
    {
        HallCfg { actuation_pt: 20, deact_offset: 3, settle_after_col_micros: 40 }
    }
}

/// Calibration values for a single key.
#[derive(Clone, Copy, Debug, PartialEq, Eq, Structural)]
pub struct KeyCalib {
    /// Fixed-point (Q16) factor converting curve deltas to travel units.
    pub scale_factor: i32,
    /// Raw sample corresponding to zero travel for this key.
    pub zero: u16,
}

/// The calibration record derived from a zero and full-press sample pair.
pub open spec fn spec_key_calib(zero: int, full: int) -> KeyCalib {
    KeyCalib { scale_factor: spec_compute_scale_factor(zero, full) as i32, zero: zero as u16 }
}

impl KeyCalib {
    /// Build calibration data from zero and full-press samples.
    pub fn new(zero: u16, full: u16) -> (c: Self)
        ensures
            c == spec_key_calib(zero as int, full as int),
            c.zero == zero,
    {
        let scale_factor = compute_scale_factor(zero, full);
        KeyCalib { scale_factor, zero }
    }

    /// Whether this record still holds the uncalibrated placeholder.
    pub fn is_uncalibrated(&self) -> (b: bool)
        ensures
            b == (self.zero == UNCALIBRATED_ZERO),
    {
        self.zero == UNCALIBRATED_ZERO
    }

    /// The placeholder record used before calibration has run: the
    /// nominal zero with the default full-press range below it.
    pub fn uncalibrated() -> (c: Self)
        ensures
            c == spec_key_calib(
                UNCALIBRATED_ZERO as int,
                UNCALIBRATED_ZERO as int - DEFAULT_FULL_RANGE as int,
            ),
            c.zero == UNCALIBRATED_ZERO,
    {
        Self::new(UNCALIBRATED_ZERO, UNCALIBRATED_ZERO - DEFAULT_FULL_RANGE)
    }
}

impl Default for KeyCalib {
    /// Default to the uncalibrated placeholder record.
    fn default() -> (c: Self)
        ensures
            c == spec_key_calib(
                UNCALIBRATED_ZERO as int,
                UNCALIBRATED_ZERO as int - DEFAULT_FULL_RANGE as int,
            ),
    {
        Self::uncalibrated()
    }
}

} // verus!
