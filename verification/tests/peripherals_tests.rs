use hall_matrix::encoder::{EncoderSwitch, ENCODER_DEBOUNCE_MICROS};
use hall_matrix::event::KeyEvent;
use hall_matrix::indicator::{
    indicator_updates, panic_blink_frame, BacklightCmd, SnledIndicatorController,
    CAPS_LOCK_LED_INDEX, NUM_LOCK_LED_INDEX,
};
use hall_matrix::layer_toggle::{LayerToggle, MatrixPos, LAYER_TOGGLE_DEBOUNCE_MICROS};
use hall_matrix::led::{
    gamma2, write_header, RegWrite, Snled27351, SnledLed, PAGE_FUNCTION, PAGE_PWM,
};

#[test]
fn gamma_curve_exact_values() {
    assert_eq!(gamma2(0), 0);
    assert_eq!(gamma2(128), 64);
    assert_eq!(gamma2(255), 255);
    assert_eq!(gamma2(16), 1);
}

#[test]
fn header_byte_packs_command_and_page() {
    assert_eq!(write_header(PAGE_PWM, 0x42), (0x21, 0x42));
    assert_eq!(write_header(PAGE_FUNCTION, 0x00), (0x23, 0x00));
    // Only the low page nibble enters the header.
    assert_eq!(write_header(0xF4, 0x01), (0x24, 0x01));
}

fn layout() -> Vec<SnledLed> {
    vec![
        SnledLed { blue: 2, driver: 0, green: 1, red: 0 },
        SnledLed { blue: 12, driver: 1, green: 11, red: 10 },
    ]
}

#[test]
fn set_color_writes_three_pwm_registers() {
    let mut d = Snled27351::new(layout());
    let w = d.set_color(1, 255, 255, 255, 100);
    assert_eq!(w.len(), 3);
    for (i, reg) in [10u8, 11, 12].iter().enumerate() {
        assert_eq!(w[i].driver, 1);
        assert_eq!(w[i].page, PAGE_PWM);
        assert_eq!(w[i].reg, *reg);
        assert_eq!(w[i].data, vec![255]);
    }
}

#[test]
fn set_color_out_of_range_index_writes_nothing() {
    let mut d = Snled27351::new(layout());
    let w = d.set_color(62, 255, 0, 0, 100);
    assert!(w.is_empty());
}

#[test]
fn set_color_scales_by_brightness_and_gamma() {
    let mut d = Snled27351::new(layout());
    // 50 percent: global brightness (50*255)/100 = 127; channel 200
    // scales to (200*127+127)/255 = 100, gamma -> (100*100+127)/255 = 39.
    let w = d.set_color(0, 200, 0, 200, 50);
    assert_eq!(w[0].data, vec![39]);
    assert_eq!(w[1].data, vec![0]);
    assert_eq!(w[2].data, vec![39]);
}

#[test]
fn set_color_all_covers_every_led() {
    let mut d = Snled27351::new(layout());
    let w = d.set_color_all(255, 255, 255, 100);
    assert_eq!(w.len(), 6);
    assert_eq!(w[0].driver, 0);
    assert_eq!(w[0].reg, 0);
    assert_eq!(w[3].driver, 1);
    assert_eq!(w[3].reg, 10);
    for wr in &w {
        assert_eq!(wr.page, PAGE_PWM);
        assert_eq!(wr.data, vec![255]);
    }
}

#[test]
fn init_writes_sequence() {
    let w: Vec<RegWrite> = Snled27351::init_driver_writes(1, 0xFF);
    assert_eq!(w.len(), 10);
    assert_eq!(w[0].page, PAGE_FUNCTION);
    assert_eq!(w[0].reg, 0x00);
    assert_eq!(w[0].data, vec![0x00]);
    assert_eq!(w[1].reg, 0x13);
    assert_eq!(w[1].data, vec![0xAA]);
    assert_eq!(w[3].data, vec![0x04]);
    assert_eq!(w[4].data, vec![0x40]);
    assert_eq!(w[6].data, vec![0xFF; 0x18]);
    assert_eq!(w[7].data, vec![0x00; 0xC0]);
    assert_eq!(w[8].data, vec![0xFF; 0x0C]);
    assert_eq!(w[9].data, vec![0x01]);
    for wr in &w {
        assert_eq!(wr.driver, 1);
    }
}

#[test]
fn softstart_ramp() {
    let (delay_ms, levels) = Snled27351::softstart_plan(100, 50, 1000);
    assert_eq!(delay_ms, 20);
    assert_eq!(levels.len(), 51);
    assert_eq!(levels[0], 0);
    assert_eq!(levels[25], 50);
    assert_eq!(levels[50], 100);
    for i in 1..levels.len() {
        assert!(levels[i] >= levels[i - 1]);
    }
}

#[test]
fn softstart_degenerate_steps_and_time() {
    // Zero steps count as one; a too-short ramp keeps a 1 ms delay.
    let (delay_ms, levels) = Snled27351::softstart_plan(80, 0, 0);
    assert_eq!(delay_ms, 1);
    assert_eq!(levels.len(), 2);
    assert_eq!(levels[0], 0);
    assert_eq!(levels[1], 80);
    // Brightness above 100 percent is clamped.
    let (_d, levels) = Snled27351::softstart_plan(255, 2, 100);
    assert_eq!(levels[2], 100);
}

#[test]
fn indicator_command() {
    let c = SnledIndicatorController::new();
    assert_eq!(c.command_for(true, false), BacklightCmd::Indicators { caps: true, num: false });
}

#[test]
fn indicator_updates_caps_and_num() {
    let u = indicator_updates(true, true);
    assert_eq!(u.len(), 2);
    assert_eq!(u[0].led_index, CAPS_LOCK_LED_INDEX);
    assert_eq!((u[0].red, u[0].green, u[0].blue, u[0].brightness), (255, 0, 0, 100));
    assert_eq!(u[1].led_index, NUM_LOCK_LED_INDEX);
    assert_eq!((u[1].red, u[1].green, u[1].blue, u[1].brightness), (255, 255, 255, 100));

    let u = indicator_updates(false, false);
    assert_eq!((u[0].red, u[0].green, u[0].blue, u[0].brightness), (255, 255, 255, 100));
    assert_eq!((u[1].red, u[1].green, u[1].blue, u[1].brightness), (0, 0, 0, 0));
}

#[test]
fn panic_blink_frames() {
    assert_eq!(panic_blink_frame(true), (255, 0, 0, 100));
    assert_eq!(panic_blink_frame(false), (0, 0, 0, 0));
}

#[test]
fn layer_toggle_taps_on_level_change() {
    let high = MatrixPos { row: 5, col: 7 };
    let low = MatrixPos { row: 5, col: 8 };
    let mut t = LayerToggle::new_with_default_debounce(high, low);
    assert_eq!(t.debounce_micros(), LAYER_TOGGLE_DEBOUNCE_MICROS);
    assert!(t.take_pending_release().is_none());

    // First observed level taps its position...
    let ev = t.initial_event(true);
    assert_eq!(ev, KeyEvent { row: 5, col: 7, pressed: true });
    // ... and the next read returns the release.
    assert_eq!(t.take_pending_release(), Some(KeyEvent { row: 5, col: 7, pressed: false }));
    assert!(t.take_pending_release().is_none());

    // Same level again: nothing.
    assert!(t.maybe_emit_for_level(true).is_none());
    // Level change: tap of the other position.
    let ev = t.maybe_emit_for_level(false);
    assert_eq!(ev, Some(KeyEvent { row: 5, col: 8, pressed: true }));
    assert_eq!(t.take_pending_release(), Some(KeyEvent { row: 5, col: 8, pressed: false }));
}

#[test]
fn encoder_switch_debounced_transitions() {
    let mut e = EncoderSwitch::new(0, 13);
    assert_eq!(e.debounce_micros(), ENCODER_DEBOUNCE_MICROS);
    // Released at boot; a stable released level is a bounce.
    assert!(e.on_level(false).is_none());
    // Press and release each produce one event.
    assert_eq!(e.on_level(true), Some(KeyEvent { row: 0, col: 13, pressed: true }));
    assert!(e.on_level(true).is_none());
    assert_eq!(e.on_level(false), Some(KeyEvent { row: 0, col: 13, pressed: false }));
}
