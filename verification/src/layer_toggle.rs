//! Layer toggle switch: a two-position switch that taps one of two
//! matrix keys whenever its level changes.
//!
//! Waiting for pin edges and reading the level is the caller's part;
//! this module decides, from each observed stable level, which tap to
//! emit and remembers the release owed after every tap.

use vstd::prelude::*;
use crate::event::KeyEvent;

verus! {

/// Default debounce applied to level changes, in microseconds.
pub const LAYER_TOGGLE_DEBOUNCE_MICROS: u64 = 20;

/// Matrix coordinates for a key position.
#[derive(Clone, Copy, Debug, PartialEq, Eq, Structural)]
pub struct MatrixPos {
    /// Column index within the matrix.
    pub col: u8,
    /// Row index within the matrix.
    pub row: u8,
}

/// Input device that taps a layer key based on a switch position.
pub struct LayerToggle {
    /// Microseconds the level must hold before it counts.
    debounce_micros: u64,
    /// Position tapped when the input reads a high logic level.
    high_pos: MatrixPos,
    /// Last observed logic level, once one has been seen.
    last_level: Option<bool>,
    /// Position tapped when the input reads a low logic level.
    low_pos: MatrixPos,
    /// Position whose release is owed after a tap.
    pending_release: Option<MatrixPos>,
}

impl LayerToggle {
    /// Microseconds the level must hold before it counts.
    pub closed spec fn spec_debounce_micros(self) -> u64 {
        self.debounce_micros
    }

    /// Position tapped on a high level.
    pub closed spec fn spec_high_pos(self) -> MatrixPos {
        self.high_pos
    }

    /// Position tapped on a low level.
    pub closed spec fn spec_low_pos(self) -> MatrixPos {
        self.low_pos
    }

    /// Last observed logic level, once one has been seen.
    pub closed spec fn spec_last_level(self) -> Option<bool> {
        self.last_level
    }

    /// Position whose release is owed after a tap.
    pub closed spec fn spec_pending_release(self) -> Option<MatrixPos> {
        self.pending_release
    }

    /// The position this toggle taps for a given level.
    pub open spec fn spec_pos_for_level(self, level_high: bool) -> MatrixPos {
        if level_high {
            self.spec_high_pos()
        } else {
            self.spec_low_pos()
        }
    }

    /// Create a layer toggle with the given debounce.
    pub fn new(high_pos: MatrixPos, low_pos: MatrixPos, debounce_micros: u64) -> (t: Self)
        ensures
            t.spec_high_pos() == high_pos,
            t.spec_low_pos() == low_pos,
            t.spec_debounce_micros() == debounce_micros,
            t.spec_last_level() is None,
            t.spec_pending_release() is None,
    {
        LayerToggle {
            debounce_micros,
            high_pos,
            last_level: None,
            low_pos,
            pending_release: None,
        }
    }

    /// Create a layer toggle with the default debounce.
    pub fn new_with_default_debounce(high_pos: MatrixPos, low_pos: MatrixPos) -> (t: Self)
        ensures
            t.spec_high_pos() == high_pos,
            t.spec_low_pos() == low_pos,
            t.spec_debounce_micros() == LAYER_TOGGLE_DEBOUNCE_MICROS,
            t.spec_last_level() is None,
            t.spec_pending_release() is None,
    {
        Self::new(high_pos, low_pos, LAYER_TOGGLE_DEBOUNCE_MICROS)
    }

    /// The position tapped for a level.
    pub fn pos_for_level(&self, level_high: bool) -> (p: MatrixPos)
        ensures
            p == self.spec_pos_for_level(level_high),
    {
        if level_high {
            self.high_pos
        } else {
            self.low_pos
        }
    }

    /// Record a tap of `pos`: the press event is returned and the
    /// matching release is owed.
    pub fn queue_tap(&mut self, pos: MatrixPos) -> (ev: KeyEvent)
        ensures
            final(self).spec_pending_release() == Some(pos),
            final(self).spec_last_level() == old(self).spec_last_level(),
            final(self).spec_high_pos() == old(self).spec_high_pos(),
            final(self).spec_low_pos() == old(self).spec_low_pos(),
            final(self).spec_debounce_micros() == old(self).spec_debounce_micros(),
            ev == (KeyEvent { row: pos.row, col: pos.col, pressed: true }),
    {
        self.pending_release = Some(pos);
        KeyEvent { row: pos.row, col: pos.col, pressed: true }
    }

    /// Take the owed release, if any: after a tap, the very next event
    /// read is the release of the tapped position.
    pub fn take_pending_release(&mut self) -> (r: Option<KeyEvent>)
        ensures
            final(self).spec_pending_release() is None,
            final(self).spec_last_level() == old(self).spec_last_level(),
            final(self).spec_high_pos() == old(self).spec_high_pos(),
            final(self).spec_low_pos() == old(self).spec_low_pos(),
            final(self).spec_debounce_micros() == old(self).spec_debounce_micros(),
            match old(self).spec_pending_release() {
                Some(pos) => r == Some(KeyEvent { row: pos.row, col: pos.col, pressed: false }),
                None => r is None,
            },
    {
        match self.pending_release {
            Some(pos) => {
                self.pending_release = None;
                Some(KeyEvent { row: pos.row, col: pos.col, pressed: false })
            },
            None => None,
        }
    }

    /// React to the first observed level: remember it and tap its
    /// position unconditionally.
    pub fn initial_event(&mut self, level: bool) -> (ev: KeyEvent)
        requires
            old(self).spec_last_level() is None,
        ensures
            final(self).spec_last_level() == Some(level),
            final(self).spec_pending_release() == Some(old(self).spec_pos_for_level(level)),
            final(self).spec_high_pos() == old(self).spec_high_pos(),
            final(self).spec_low_pos() == old(self).spec_low_pos(),
            final(self).spec_debounce_micros() == old(self).spec_debounce_micros(),
            ev == (KeyEvent {
                row: old(self).spec_pos_for_level(level).row,
                col: old(self).spec_pos_for_level(level).col,
                pressed: true,
            }),
    {
        self.last_level = Some(level);
        let pos = self.pos_for_level(level);
        self.queue_tap(pos)
    }

    /// React to a debounced level reading: a tap of the level's
    /// position exactly when the level changed, nothing otherwise.
    pub fn maybe_emit_for_level(&mut self, new_level: bool) -> (r: Option<KeyEvent>)
        ensures
            final(self).spec_high_pos() == old(self).spec_high_pos(),
            final(self).spec_low_pos() == old(self).spec_low_pos(),
            final(self).spec_debounce_micros() == old(self).spec_debounce_micros(),
            old(self).spec_last_level() == Some(new_level) ==> r is None && *final(self) == *old(
                self,
            ),
            old(self).spec_last_level() != Some(new_level) ==> {
                &&& final(self).spec_last_level() == Some(new_level)
                &&& final(self).spec_pending_release() == Some(
                    old(self).spec_pos_for_level(new_level),
                )
                &&& r == Some(
                    KeyEvent {
                        row: old(self).spec_pos_for_level(new_level).row,
                        col: old(self).spec_pos_for_level(new_level).col,
                        pressed: true,
                    },
                )
            },
    {
        let same = match self.last_level {
            Some(l) => l == new_level,
            None => false,
        };
        if same {
            return None;
        }
        self.last_level = Some(new_level);
        let pos = self.pos_for_level(new_level);
        Some(self.queue_tap(pos))
    }

    /// Microseconds the level must hold before it counts.
    pub fn debounce_micros(&self) -> (d: u64)
        ensures
            d == self.spec_debounce_micros(),
    {
        self.debounce_micros
    }
}

} // verus!
