//! Discrete key transition events produced by the matrix scanner.

use vstd::prelude::*;

verus! {

/// A single key press or release, identified by its matrix position.
/// Produced by the scanner, consumed exactly once by the host side.
#[derive(Clone, Copy, Debug, PartialEq, Eq, Structural)]
pub struct KeyEvent {
    /// Row index of the key.
    pub row: u8,
    /// Column index of the key.
    pub col: u8,
    /// True for a press, false for a release.
    pub pressed: bool,
}

} // verus!
