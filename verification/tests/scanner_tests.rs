use hall_matrix::calib::HallCfg;
use hall_matrix::event::KeyEvent;
use hall_matrix::queue::EventQueue;
use hall_matrix::scanner::{AnalogHallMatrix, KeyState};

const ROWS: usize = 2;
const COLS: usize = 3;

fn new_matrix() -> AnalogHallMatrix {
    AnalogHallMatrix::new(ROWS, COLS, HallCfg::default())
}

/// Run the full one-time calibration with every key resting at `rest`.
fn calibrate_at(m: &mut AnalogHallMatrix, rest: u16) {
    for _pass in 0..8 {
        for col in 0..COLS {
            let _ops = m.select_column(col);
            let samples: Vec<u16> = vec![rest; ROWS];
            m.calib_accumulate_column(col, &samples);
            let _ops = m.advance_column();
        }
    }
    m.finish_calibration();
}

/// Scan one pass in which every key of every column reads `flat`,
/// except key (0, 0) which reads `key00`.
fn scan_pass(m: &mut AnalogHallMatrix, key00: u16, flat: u16) {
    for col in 0..COLS {
        let _ops = m.select_column(col);
        let mut samples: Vec<u16> = vec![flat; ROWS];
        if col == 0 {
            samples[0] = key00;
        }
        m.process_column_samples(col, &samples);
        let _ops = m.advance_column();
    }
}

fn drain(m: &mut AnalogHallMatrix) -> Vec<KeyEvent> {
    let mut evs = Vec::new();
    while let Some(ev) = m.pop_event() {
        evs.push(ev);
    }
    evs
}

#[test]
fn thresholds_from_config() {
    let m = new_matrix();
    assert_eq!(m.act_threshold(), 120);
    assert_eq!(m.deact_threshold(), 102);
    assert_eq!(m.rows(), ROWS);
    assert_eq!(m.cols(), COLS);
    assert!(m.needs_zero_calibration());
}

#[test]
fn threshold_saturation() {
    let m = AnalogHallMatrix::new(
        1,
        1,
        HallCfg { actuation_pt: 60000, deact_offset: 2, settle_after_col_micros: 40 },
    );
    assert_eq!(m.act_threshold(), u16::MAX);
    assert_eq!(m.deact_threshold(), u16::MAX);
    let m2 = AnalogHallMatrix::new(
        1,
        1,
        HallCfg { actuation_pt: 3, deact_offset: 10, settle_after_col_micros: 40 },
    );
    assert_eq!(m2.deact_threshold(), 0);
}

#[test]
fn end_to_end_press_release() {
    // Starting uncalibrated, calibrate at rest 3121, press key (0, 0)
    // fully and release it: exactly one press and one release event,
    // no duplicates for unchanged travel in between.
    let mut m = new_matrix();
    assert!(m.needs_zero_calibration());
    calibrate_at(&mut m, 3121);
    assert!(!m.needs_zero_calibration());

    // Full press: raw drops from 3121 to 1940.
    scan_pass(&mut m, 1940, 3121);
    // Unchanged travel on repeated deep read (gap above the noise
    // filter so that it is not mistaken for noise).
    scan_pass(&mut m, 1930, 3121);
    // Back to rest.
    scan_pass(&mut m, 3121, 3121);
    scan_pass(&mut m, 3121, 3121);

    let evs = drain(&mut m);
    assert_eq!(evs.len(), 2);
    assert_eq!(evs[0], KeyEvent { row: 0, col: 0, pressed: true });
    assert_eq!(evs[1], KeyEvent { row: 0, col: 0, pressed: false });
}

#[test]
fn hysteresis_no_chatter() {
    // With thresholds 120/102, travel oscillating between 110 and 115
    // after an initial press produces zero additional events.
    let mut m = new_matrix();
    calibrate_at(&mut m, 3121);

    scan_pass(&mut m, 1940, 3121);  // press, travel 240
    let evs = drain(&mut m);
    assert_eq!(evs.len(), 1);
    assert!(evs[0].pressed);

    // raw 2882 -> travel 110, raw 2869 -> travel 115; both strictly
    // inside the hysteresis band, raw gaps above the noise gate.
    for _ in 0..6 {
        scan_pass(&mut m, 2882, 3121);
        scan_pass(&mut m, 2869, 3121);
    }
    assert!(m.pending_is_empty());

    // Release only below the de-actuation threshold.
    scan_pass(&mut m, 3121, 3121);
    let evs = drain(&mut m);
    assert_eq!(evs.len(), 1);
    assert!(!evs[0].pressed);
}

#[test]
fn noise_gate_swallows_small_wobbles() {
    // Two consecutive readings differing by less than the noise-gate width
    // cause no recomputation and no event.
    let mut m = new_matrix();
    calibrate_at(&mut m, 3121);

    // First reading ever is never gated (no previous sample).
    scan_pass(&mut m, 4122, 4122);
    // 4125 is within 5 of 4122: gated for every key.
    scan_pass(&mut m, 4125, 4125);
    assert!(m.pending_is_empty());

    // A press within the noise-gate width of the previous reading is also hidden.
    scan_pass(&mut m, 1940, 3121);
    let evs = drain(&mut m);
    assert_eq!(evs.len(), 1);
    scan_pass(&mut m, 1943, 3121);
    assert!(m.pending_is_empty());
}

#[test]
fn out_of_range_retains_travel_and_state() {
    // A sensor glitch outside the valid window keeps the key pressed.
    let mut m = new_matrix();
    calibrate_at(&mut m, 3121);
    scan_pass(&mut m, 1940, 3121);
    let evs = drain(&mut m);
    assert_eq!(evs.len(), 1);
    // Glitch high, far outside the window (gap above noise gate).
    scan_pass(&mut m, 4000, 3121);
    scan_pass(&mut m, 3900, 3121);
    assert!(m.pending_is_empty());
    // Recovering to rest finally releases.
    scan_pass(&mut m, 3121, 3121);
    let evs = drain(&mut m);
    assert_eq!(evs.len(), 1);
    assert!(!evs[0].pressed);
}

#[test]
fn degenerate_calibration_disables_key_without_crash() {
    // A channel stuck at zero calibrates to a degenerate record; the
    // key never actuates, the rest of the matrix still works.
    let mut m = new_matrix();
    for _pass in 0..8 {
        for col in 0..COLS {
            let _ops = m.select_column(col);
            let mut samples: Vec<u16> = vec![3121; ROWS];
            if col == 1 {
                samples[1] = 0;
            }
            m.calib_accumulate_column(col, &samples);
            let _ops = m.advance_column();
        }
    }
    m.finish_calibration();

    // The stuck key reads nonsense forever; no event from it.
    for col in 0..COLS {
        let _ops = m.select_column(col);
        let mut samples: Vec<u16> = vec![3121; ROWS];
        if col == 1 {
            samples[1] = 40;
        }
        m.process_column_samples(col, &samples);
        let _ops = m.advance_column();
    }
    assert!(m.pending_is_empty());

    // A healthy key still presses.
    scan_pass(&mut m, 1940, 3121);
    let evs = drain(&mut m);
    assert_eq!(evs.len(), 1);
    assert_eq!(evs[0], KeyEvent { row: 0, col: 0, pressed: true });
}

#[test]
fn events_in_column_major_row_order() {
    // All keys pressed in one pass: events come out column by column,
    // rows ascending within each column.
    let mut m = new_matrix();
    calibrate_at(&mut m, 3121);
    for col in 0..COLS {
        let _ops = m.select_column(col);
        let samples: Vec<u16> = vec![1940; ROWS];
        m.process_column_samples(col, &samples);
        let _ops = m.advance_column();
    }
    let evs = drain(&mut m);
    assert_eq!(evs.len(), ROWS * COLS);
    let mut i = 0;
    for col in 0..COLS {
        for row in 0..ROWS {
            assert_eq!(evs[i], KeyEvent { row: row as u8, col: col as u8, pressed: true });
            i += 1;
        }
    }
}

#[test]
fn key_state_boot_values() {
    let s = KeyState::new();
    assert_eq!(s.last_raw, 0);
    assert_eq!(s.travel_scaled, 0);
    assert!(!s.pressed);
    assert_eq!(KeyState::default(), s);
}

#[test]
fn queue_evicts_oldest_when_full() {
    let mut q = EventQueue::new();
    assert!(q.is_empty());
    for i in 0..33u8 {
        q.push_evict(KeyEvent { row: i, col: 0, pressed: true });
    }
    assert_eq!(q.len(), 32);
    // Event 0 was evicted to make room for event 32.
    let first = q.pop().unwrap();
    assert_eq!(first.row, 1);
    let mut last = first;
    while let Some(ev) = q.pop() {
        last = ev;
    }
    assert_eq!(last.row, 32);
    assert!(q.is_empty());
    assert!(q.pop().is_none());
}

#[test]
fn scan_keeps_queue_bounded() {
    // A 16x16 matrix pressing every key floods far more than the
    // queue holds; the queue stays at capacity, keeping the newest.
    let mut m = AnalogHallMatrix::new(16, 16, HallCfg::default());
    for _pass in 0..8 {
        for col in 0..16 {
            let _ops = m.select_column(col);
            let samples: Vec<u16> = vec![3121; 16];
            m.calib_accumulate_column(col, &samples);
            let _ops = m.advance_column();
        }
    }
    m.finish_calibration();
    for col in 0..16 {
        let _ops = m.select_column(col);
        let samples: Vec<u16> = vec![1940; 16];
        m.process_column_samples(col, &samples);
        let _ops = m.advance_column();
    }
    assert_eq!(m.pending_len(), 32);
    // 256 presses happened; the 32 kept are the newest ones, ending
    // with the last key of the last column.
    let mut last = None;
    while let Some(ev) = m.pop_event() {
        last = Some(ev);
    }
    assert_eq!(last, Some(KeyEvent { row: 15, col: 15, pressed: true }));
}
