//! Rotary-encoder push switch: a single debounced key read through an
//! interrupt pin.
//!
//! Waiting for pin edges, the debounce delay and the level read stay
//! with the caller; the pin is wired with a pull-up, so a low level
//! means pressed.  This module turns each stable level into an event
//! exactly when the state changed.

use vstd::prelude::*;
use crate::event::KeyEvent;

verus! {

/// Debounce applied after each edge, in microseconds (5 ms).
pub const ENCODER_DEBOUNCE_MICROS: u64 = 5000;

/// Debounced encoder push switch.
pub struct EncoderSwitch {
    /// Column index reported for this switch.
    col: u8,
    /// Microseconds to wait after an edge before sampling.
    debounce_micros: u64,
    /// Whether the switch was pressed at the last stable sample.
    last_pressed: bool,
    /// Row index reported for this switch.
    row: u8,
}

impl EncoderSwitch {
    /// Row index reported for this switch.
    pub closed spec fn spec_row(self) -> u8 {
        self.row
    }

    /// Column index reported for this switch.
    pub closed spec fn spec_col(self) -> u8 {
        self.col
    }

    /// Whether the switch was pressed at the last stable sample.
    pub closed spec fn spec_last_pressed(self) -> bool {
        self.last_pressed
    }

    /// Microseconds to wait after an edge before sampling.
    pub closed spec fn spec_debounce_micros(self) -> u64 {
        self.debounce_micros
    }

    /// Create an encoder switch reporting at `(row, col)`, initially
    /// released, with the default debounce.
    pub fn new(row: u8, col: u8) -> (s: Self)
        ensures
            s.spec_row() == row,
            s.spec_col() == col,
            !s.spec_last_pressed(),
            s.spec_debounce_micros() == ENCODER_DEBOUNCE_MICROS,
    {
        EncoderSwitch { col, debounce_micros: ENCODER_DEBOUNCE_MICROS, last_pressed: false, row }
    }

    /// React to a debounced stable level: an event exactly when the
    /// pressed state changed, nothing for a bounce.
    pub fn on_level(&mut self, pressed: bool) -> (r: Option<KeyEvent>)
        ensures
            final(self).spec_row() == old(self).spec_row(),
            final(self).spec_col() == old(self).spec_col(),
            final(self).spec_debounce_micros() == old(self).spec_debounce_micros(),
            pressed == old(self).spec_last_pressed() ==> r is None && *final(self) == *old(self),
            pressed != old(self).spec_last_pressed() ==> final(self).spec_last_pressed() == pressed
                && r == Some(
                KeyEvent { row: old(self).spec_row(), col: old(self).spec_col(), pressed },
            ),
    {
        if pressed != self.last_pressed {
            self.last_pressed = pressed;
            Some(KeyEvent { row: self.row, col: self.col, pressed })
        } else {
            None
        }
    }

    /// Microseconds to wait after an edge before sampling.
    pub fn debounce_micros(&self) -> (d: u64)
        ensures
            d == self.spec_debounce_micros(),
    {
        self.debounce_micros
    }
}

} // verus!
