use hall_matrix::calib::{HallCfg, KeyCalib};
use hall_matrix::scanner::AnalogHallMatrix;
use hall_matrix::travel::{
    apply_zero_offset, compute_scale_factor, delta_from_ref, DEFAULT_FULL_RANGE, FULL_TRAVEL_SCALED,
    NOISE_GATE, REF_ZERO_TRAVEL, SCALE_Q_FACTOR, UNCALIBRATED_ZERO, VALID_RAW_MAX, VALID_RAW_MIN,
};

#[test]
fn constants_match_device() {
    assert_eq!(FULL_TRAVEL_SCALED, 240);
    assert_eq!(VALID_RAW_MIN, 1200);
    assert_eq!(VALID_RAW_MAX, 3500);
    assert_eq!(REF_ZERO_TRAVEL, 3121);
    assert_eq!(UNCALIBRATED_ZERO, 3000);
    assert_eq!(NOISE_GATE, 5);
    assert_eq!(DEFAULT_FULL_RANGE, 900);
}

#[test]
fn delta_is_zero_at_rest_reference() {
    assert_eq!(delta_from_ref(3121), 0);
}

#[test]
fn delta_exact_values() {
    assert_eq!(delta_from_ref(2221), 8573);
    assert_eq!(delta_from_ref(1940), 10136);
    assert_eq!(delta_from_ref(1200), 22712);
    assert_eq!(delta_from_ref(3500), -11079);
}

#[test]
fn delta_clamps_to_valid_window() {
    assert_eq!(delta_from_ref(0), delta_from_ref(1200));
    assert_eq!(delta_from_ref(1199), delta_from_ref(1200));
    assert_eq!(delta_from_ref(3501), delta_from_ref(3500));
    assert_eq!(delta_from_ref(u16::MAX), delta_from_ref(3500));
}

#[test]
fn delta_never_increases_with_sample() {
    let mut prev = delta_from_ref(1200);
    let mut x: u16 = 1200;
    while x <= 3500 {
        let d = delta_from_ref(x);
        assert!(d <= prev, "delta rose between {} and {}", x - 7, x);
        prev = d;
        x += 7;
    }
}

#[test]
fn scale_factor_exact_values() {
    assert_eq!(compute_scale_factor(3121, 2221), 78279);
    assert_eq!(compute_scale_factor(3000, 2100), 78279);
}

#[test]
fn scale_factor_neutral_on_zero_delta() {
    // zero == full shifts the full-press sample onto the rest
    // reference, where the curve delta is exactly zero.
    assert_eq!(compute_scale_factor(2000, 2000), SCALE_Q_FACTOR);
    assert_eq!(compute_scale_factor(3121, 3121), SCALE_Q_FACTOR);
}

#[test]
fn scale_factor_total_over_u16_corners() {
    // Never a crash, always a finite value, for extreme inputs.
    let corners = [0u16, 1, 1199, 1200, 2000, 3121, 3500, 3501, 65535];
    for &zero in &corners {
        for &full in &corners {
            let f = compute_scale_factor(zero, full);
            assert!(f >= -671088640 && f <= 671088640);
        }
    }
}

#[test]
fn scale_factor_neutral_on_unrepresentable_shift() {
    // full - zero + 3121 overflows the sample range.
    assert_eq!(compute_scale_factor(0, 65535), SCALE_Q_FACTOR);
    // ... and underflows it.
    assert_eq!(compute_scale_factor(65535, 0), SCALE_Q_FACTOR);
}

#[test]
fn scale_factor_negative_when_full_above_zero() {
    assert_eq!(compute_scale_factor(3000, 3500), -60573);
}

#[test]
fn apply_zero_offset_shifts_both_ways() {
    assert_eq!(apply_zero_offset(3121, 2000), Some(2000));
    assert_eq!(apply_zero_offset(3221, 2000), Some(1900));
    assert_eq!(apply_zero_offset(3021, 2000), Some(2100));
    assert_eq!(apply_zero_offset(65535, 1000), None);
    assert_eq!(apply_zero_offset(0, 65535), None);
}

#[test]
fn travel_exact_values() {
    let cal = KeyCalib::new(3121, 2221);
    assert_eq!(cal.scale_factor, 78279);
    assert_eq!(cal.zero, 3121);
    assert_eq!(AnalogHallMatrix::travel_scaled_from(&cal, 0, 1940), 240);
    assert_eq!(AnalogHallMatrix::travel_scaled_from(&cal, 0, 2882), 110);
    assert_eq!(AnalogHallMatrix::travel_scaled_from(&cal, 0, 2869), 115);
    assert_eq!(AnalogHallMatrix::travel_scaled_from(&cal, 0, 2849), 121);
    assert_eq!(AnalogHallMatrix::travel_scaled_from(&cal, 77, 3121), 0);
}

#[test]
fn travel_out_of_range_passthrough() {
    // Out-of-window samples return the previous travel exactly.
    let cal = KeyCalib::new(3121, 2221);
    for prev in [0u16, 7, 240, 999, u16::MAX] {
        assert_eq!(AnalogHallMatrix::travel_scaled_from(&cal, prev, 1199), prev);
        assert_eq!(AnalogHallMatrix::travel_scaled_from(&cal, prev, 3501), prev);
        assert_eq!(AnalogHallMatrix::travel_scaled_from(&cal, prev, 0), prev);
        assert_eq!(AnalogHallMatrix::travel_scaled_from(&cal, prev, u16::MAX), prev);
    }
}

#[test]
fn travel_clamped_to_full_range() {
    // Every in-window sample yields a travel in [0, 240], for any
    // calibration whose zero is in the window.
    for zero in [1200u16, 2000, 3121, 3500] {
        let cal = KeyCalib::new(zero, zero.saturating_sub(900));
        let mut raw: u16 = 1200;
        while raw <= 3500 {
            let t = AnalogHallMatrix::travel_scaled_from(&cal, 9999, raw);
            assert!(t <= 240, "travel {} out of range at raw {} zero {}", t, raw, zero);
            raw += 23;
        }
    }
}

#[test]
fn travel_monotonic_near_rest() {
    // Walking from the rest reference toward the lower window edge
    // never decreases the computed travel.
    let cal = KeyCalib::new(3121, 2221);
    let mut prev_travel: u16 = 0;
    let mut raw: u16 = REF_ZERO_TRAVEL;
    loop {
        let t = AnalogHallMatrix::travel_scaled_from(&cal, prev_travel, raw);
        assert!(
            t >= prev_travel,
            "travel fell from {} to {} at raw {}",
            prev_travel,
            t,
            raw
        );
        prev_travel = t;
        if raw <= VALID_RAW_MIN {
            break;
        }
        raw -= 11;
        if raw < VALID_RAW_MIN {
            raw = VALID_RAW_MIN;
        }
    }
    assert_eq!(prev_travel, 240);
}

#[test]
fn travel_zero_above_reference() {
    // A key less pressed than rest reads as zero travel.
    let cal = KeyCalib::new(3121, 2221);
    assert_eq!(AnalogHallMatrix::travel_scaled_from(&cal, 200, 3200), 0);
    assert_eq!(AnalogHallMatrix::travel_scaled_from(&cal, 200, 3500), 0);
}

#[test]
fn travel_zero_under_negative_scale() {
    let cal = KeyCalib::new(3000, 3500);
    assert!(cal.scale_factor < 0);
    assert_eq!(AnalogHallMatrix::travel_scaled_from(&cal, 33, 2000), 0);
}

#[test]
fn uncalibrated_record() {
    let cal = KeyCalib::uncalibrated();
    assert_eq!(cal.zero, UNCALIBRATED_ZERO);
    assert_eq!(cal.scale_factor, 78279);
    assert!(cal.is_uncalibrated());
    assert!(!KeyCalib::new(3121, 2221).is_uncalibrated());
    assert_eq!(KeyCalib::default(), cal);
}

#[test]
fn default_config() {
    let cfg = HallCfg::default();
    assert_eq!(cfg.actuation_pt, 20);
    assert_eq!(cfg.deact_offset, 3);
    assert_eq!(cfg.settle_after_col_micros, 40);
}
