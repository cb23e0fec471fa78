//! Core of a hall-effect keyboard matrix: the travel curve that turns raw
//! analog samples into calibrated key travel, the per-key calibration engine,
//! the hysteresis-based matrix scanner, the shift-register column strobe
//! protocol, and the bounded event queue between them.
//!
//! Hardware access (ADC sampling, GPIO line toggling, timing delays, SPI)
//! stays outside this crate; every decision and computation in between is
//! verified here.

use vstd::prelude::*;

pub mod calib;
pub mod encoder;
pub mod event;
pub mod grid;
pub mod indicator;
pub mod layer_toggle;
pub mod led;
pub mod queue;
pub mod scanner;
pub mod strobe;
pub mod travel;

verus! {

} // verus!
