//! Lock-indicator backlight commands: which LEDs show caps lock and
//! num lock, and in which colors.
//!
//! Receiving host indicator reports and performing the SPI writes is
//! the caller's part; this module turns an indicator state into the
//! exact LED updates the backlight task must apply.

use vstd::prelude::*;

verus! {

/// LED index showing the caps lock state.
pub const CAPS_LOCK_LED_INDEX: usize = 62;
/// LED index showing the num lock state.
pub const NUM_LOCK_LED_INDEX: usize = 37;
/// Brightness percentage used for lit indicators.
pub const INDICATOR_BRIGHTNESS: u8 = 100;
/// Milliseconds between blink phases while panicking.
pub const PANIC_BLINK_DELAY_MS: u64 = 300;

/// Commands for the backlight task.
#[derive(Clone, Copy, Debug, PartialEq, Eq, Structural)]
pub enum BacklightCmd {
    /// Update the caps/num lock indicator LEDs.
    Indicators {
        /// Whether caps lock is active.
        caps: bool,
        /// Whether num lock is active.
        num: bool,
    },
    /// Blink all LEDs red forever.
    Panic,
}

/// One LED update: a color and brightness for an LED index.
#[derive(Clone, Copy, Debug, PartialEq, Eq, Structural)]
pub struct LedUpdate {
    /// Blue component.
    pub blue: u8,
    /// Brightness percentage.
    pub brightness: u8,
    /// Green component.
    pub green: u8,
    /// Index of the LED in the layout.
    pub led_index: usize,
    /// Red component.
    pub red: u8,
}

/// Controller that reacts to host lock-indicator reports.
pub struct SnledIndicatorController;

impl SnledIndicatorController {
    /// Create a new indicator controller.
    pub fn new() -> (c: Self)
        ensures
            c == (SnledIndicatorController),
    {
        SnledIndicatorController
    }

    /// The command for a host indicator report.
    pub fn command_for(&self, caps: bool, num: bool) -> (cmd: BacklightCmd)
        ensures
            cmd == (BacklightCmd::Indicators { caps, num }),
    {
        BacklightCmd::Indicators { caps, num }
    }
}

/// The LED updates an indicator command calls for: caps lock turns its
/// LED red, otherwise white; num lock turns its LED white, otherwise
/// off.
pub fn indicator_updates(caps: bool, num: bool) -> (u: Vec<LedUpdate>)
    ensures
        u@.len() == 2,
        u@[0] == (LedUpdate {
            blue: if caps { 0u8 } else { 255u8 },
            brightness: INDICATOR_BRIGHTNESS,
            green: if caps { 0u8 } else { 255u8 },
            led_index: CAPS_LOCK_LED_INDEX,
            red: 255u8,
        }),
        u@[1] == (LedUpdate {
            blue: if num { 255u8 } else { 0u8 },
            brightness: if num { INDICATOR_BRIGHTNESS } else { 0u8 },
            green: if num { 255u8 } else { 0u8 },
            led_index: NUM_LOCK_LED_INDEX,
            red: if num { 255u8 } else { 0u8 },
        }),
{
    let mut u: Vec<LedUpdate> = Vec::new();
    if caps {
        u.push(LedUpdate {
            blue: 0,
            brightness: INDICATOR_BRIGHTNESS,
            green: 0,
            led_index: CAPS_LOCK_LED_INDEX,
            red: 255,
        });
    } else {
        u.push(LedUpdate {
            blue: 255,
            brightness: INDICATOR_BRIGHTNESS,
            green: 255,
            led_index: CAPS_LOCK_LED_INDEX,
            red: 255,
        });
    }
    if num {
        u.push(LedUpdate {
            blue: 255,
            brightness: INDICATOR_BRIGHTNESS,
            green: 255,
            led_index: NUM_LOCK_LED_INDEX,
            red: 255,
        });
    } else {
        u.push(LedUpdate {
            blue: 0,
            brightness: 0,
            green: 0,
            led_index: NUM_LOCK_LED_INDEX,
            red: 0,
        });
    }
    u
}

/// The color and brightness of one panic blink phase: solid red while
/// on, dark while off.
pub fn panic_blink_frame(on: bool) -> (f: (u8, u8, u8, u8))
    ensures
        on ==> f == (255u8, 0u8, 0u8, INDICATOR_BRIGHTNESS),
        !on ==> f == (0u8, 0u8, 0u8, 0u8),
{
    if on {
        (255, 0, 0, INDICATOR_BRIGHTNESS)
    } else {
        (0, 0, 0, 0)
    }
}

} // verus!
