//! Matrix scanner: per-key state, noise gating, the raw-to-travel
//! transform, hysteresis press/release decisions, and event production.
//!
//! Sampling the sensors and driving the column strobe lines is the
//! caller's part; this module takes the raw samples of one column at a
//! time and decides everything that follows from them.

use vstd::prelude::*;
use vstd::arithmetic::div_mod::lemma_div_is_ordered;
use vstd::arithmetic::mul::{lemma_mul_inequality, lemma_mul_upper_bound};
use crate::calib::{spec_key_calib, HallCfg, KeyCalib};
use crate::event::KeyEvent;
use crate::grid::Grid2D;
use crate::queue::{spec_push_evict, EventQueue};
use crate::strobe::{
    spec_advance_ops, spec_select0_ops, spec_advance_pos, spec_select_pos, Hc164Cols, LineOp,
};
use crate::travel::{
    delta_from_ref, lemma_delta_antitone, lemma_delta_nonneg_below_ref, apply_zero_offset,
    spec_delta_from_ref, spec_shift_ok, spec_shifted, CALIB_PASSES, DEFAULT_FULL_RANGE,
    FULL_TRAVEL_SCALED, NOISE_GATE, REF_ZERO_TRAVEL, SCALE_DIVISOR, TRAVEL_SCALE, VALID_RAW_MAX,
    VALID_RAW_MIN,
};

verus! {

/// Microseconds the scan loop yields when a pass produced no events.
pub const IDLE_YIELD_MICROS: u64 = 50;

/// Dynamic state tracked per key.
#[derive(Clone, Copy, Debug, PartialEq, Eq, Structural)]
pub struct KeyState {
    /// Last raw sample seen for this key (zero until the first one).
    pub last_raw: u16,
    /// Whether the key is currently considered pressed.
    pub pressed: bool,
    /// Current travel in quantized units.
    pub travel_scaled: u16,
}

impl KeyState {
    /// Create the boot state: no sample seen, no travel, released.
    pub fn new() -> (s: Self)
        ensures
            s == (KeyState { last_raw: 0, pressed: false, travel_scaled: 0 }),
    {
        KeyState { last_raw: 0, pressed: false, travel_scaled: 0 }
    }
}

impl Default for KeyState {
    /// Default to the boot state.
    fn default() -> (s: Self)
        ensures
            s == (KeyState { last_raw: 0, pressed: false, travel_scaled: 0 }),
    {
        Self::new()
    }
}

/// Distance between two raw samples.
pub open spec fn raw_gap(a: int, b: int) -> int {
    if a >= b {
        a - b
    } else {
        b - a
    }
}

/// The scaled travel that a raw sample yields for a key: out-of-window
/// or unrepresentable samples keep the previous travel, samples above
/// the rest reference mean no travel, everything else goes through the
/// curve and the key's scale factor and is clamped to the full-travel
/// range.
pub open spec fn spec_travel_scaled_from(cal: KeyCalib, prev: int, raw: int) -> int {
    if raw < VALID_RAW_MIN as int || raw > VALID_RAW_MAX as int {
        prev
    } else if !spec_shift_ok(cal.zero as int, raw) {
        prev
    } else {
        let x = spec_shifted(cal.zero as int, raw);
        if x > REF_ZERO_TRAVEL as int {
            0
        } else if cal.scale_factor <= 0 {
            0
        } else {
            let t = (spec_delta_from_ref(x) * cal.scale_factor * (TRAVEL_SCALE as int)) / (
            SCALE_DIVISOR as int);
            if t < 0 {
                0
            } else if t > FULL_TRAVEL_SCALED as int {
                FULL_TRAVEL_SCALED as int
            } else {
                t
            }
        }
    }
}

/// Whether a sample is swallowed by the noise gate: a previous sample
/// exists and the new one moved less than the noise-gate width.
pub open spec fn spec_noise_gated(st: KeyState, raw: int) -> bool {
    st.last_raw != 0 && raw_gap(st.last_raw as int, raw) < NOISE_GATE as int
}

/// A key's state after one scan step sees `raw`.
pub open spec fn spec_step_state(act: int, deact: int, cal: KeyCalib, st: KeyState, raw: u16) -> KeyState {
    if spec_noise_gated(st, raw as int) {
        st
    } else {
        let nt = spec_travel_scaled_from(cal, st.travel_scaled as int, raw as int);
        if nt == st.travel_scaled as int {
            KeyState { last_raw: raw, ..st }
        } else {
            let np = if st.pressed {
                nt >= deact
            } else {
                nt >= act
            };
            KeyState { last_raw: raw, pressed: np, travel_scaled: nt as u16 }
        }
    }
}

/// The event, if any, that one scan step emits: exactly when the
/// pressed state flips.
pub open spec fn spec_step_event(
    act: int,
    deact: int,
    cal: KeyCalib,
    st: KeyState,
    raw: u16,
    row: u8,
    col: u8,
) -> Option<KeyEvent> {
    if spec_noise_gated(st, raw as int) {
        None
    } else {
        let nt = spec_travel_scaled_from(cal, st.travel_scaled as int, raw as int);
        if nt == st.travel_scaled as int {
            None
        } else {
            let np = if st.pressed {
                nt >= deact
            } else {
                nt >= act
            };
            if np != st.pressed {
                Some(KeyEvent { row, col, pressed: np })
            } else {
                None
            }
        }
    }
}

/// The pending events after the first `n` rows of a column scan:
/// each step's event, if any, is pushed with eviction in row order.
pub open spec fn spec_scan_col_events(
    act: int,
    deact: int,
    cals: Seq<KeyCalib>,
    sts: Seq<KeyState>,
    samples: Seq<u16>,
    col: u8,
    pending: Seq<KeyEvent>,
    n: int,
) -> Seq<KeyEvent>
    decreases n,
{
    if n <= 0 {
        pending
    } else {
        let p = spec_scan_col_events(act, deact, cals, sts, samples, col, pending, n - 1);
        match spec_step_event(
            act,
            deact,
            cals[n - 1],
            sts[n - 1],
            samples[n - 1],
            (n - 1) as u8,
            col,
        ) {
            Some(e) => spec_push_evict(p, e),
            None => p,
        }
    }
}

/// Travel never decreases as a key is pressed further: for two valid
/// samples at or below the rest reference whose zero shifts are
/// representable, the lower (deeper) sample yields at least as much
/// travel.
pub proof fn lemma_travel_monotonic(cal: KeyCalib, prev: u16, raw1: u16, raw2: u16)
    requires
        VALID_RAW_MIN <= raw2 <= raw1,
        raw1 <= REF_ZERO_TRAVEL,
        spec_shift_ok(cal.zero as int, raw1 as int),
        spec_shift_ok(cal.zero as int, raw2 as int),
    ensures
        spec_travel_scaled_from(cal, prev as int, raw2 as int) >= spec_travel_scaled_from(
            cal,
            prev as int,
            raw1 as int,
        ),
{
    let x1 = spec_shifted(cal.zero as int, raw1 as int);
    let x2 = spec_shifted(cal.zero as int, raw2 as int);
    if x1 <= REF_ZERO_TRAVEL as int && x2 <= REF_ZERO_TRAVEL as int && cal.scale_factor > 0 {
        let d1 = spec_delta_from_ref(x1);
        let d2 = spec_delta_from_ref(x2);
        lemma_delta_antitone(x2, x1);
        lemma_delta_nonneg_below_ref(x1);
        lemma_mul_inequality(d1, d2, cal.scale_factor as int);
        lemma_mul_inequality(
            d1 * cal.scale_factor as int,
            d2 * cal.scale_factor as int,
            TRAVEL_SCALE as int,
        );
        lemma_div_is_ordered(
            d1 * cal.scale_factor as int * (TRAVEL_SCALE as int),
            d2 * cal.scale_factor as int * (TRAVEL_SCALE as int),
            SCALE_DIVISOR as int,
        );
    }
}

/// Travel stays within the scaled full-travel range for every sample
/// in the valid raw window, under any calibration whose zero also lies
/// in that window.
pub proof fn lemma_travel_in_range(cal: KeyCalib, prev: u16, raw: u16)
    requires
        VALID_RAW_MIN <= raw <= VALID_RAW_MAX,
        VALID_RAW_MIN <= cal.zero <= VALID_RAW_MAX,
    ensures
        0 <= spec_travel_scaled_from(cal, prev as int, raw as int),
        spec_travel_scaled_from(cal, prev as int, raw as int) <= FULL_TRAVEL_SCALED as int,
{
}

/// Samples outside the valid raw window change nothing: the previous
/// travel is returned exactly, whatever it was.
pub proof fn lemma_out_of_range_passthrough(cal: KeyCalib, prev: u16, raw: u16)
    requires
        raw < VALID_RAW_MIN || raw > VALID_RAW_MAX,
    ensures
        spec_travel_scaled_from(cal, prev as int, raw as int) == prev as int,
{
}

/// Hysteresis keeps a pressed key pressed without an event as long as
/// its travel stays at or above the de-actuation threshold: travel
/// wobbling inside the hysteresis band causes no chatter.
pub proof fn lemma_hysteresis_no_chatter(
    act: int,
    deact: int,
    cal: KeyCalib,
    st: KeyState,
    raw: u16,
    row: u8,
    col: u8,
)
    requires
        st.pressed,
        spec_travel_scaled_from(cal, st.travel_scaled as int, raw as int) >= deact,
    ensures
        spec_step_state(act, deact, cal, st, raw).pressed,
        spec_step_event(act, deact, cal, st, raw, row, col) is None,
{
}

/// The noise gate swallows small wobbles completely: when a previous
/// sample exists and the new one moved less than the noise-gate width, the
/// step leaves the key's state untouched and emits nothing, whatever
/// the calibration.
pub proof fn lemma_noise_gate(
    act: int,
    deact: int,
    cal: KeyCalib,
    st: KeyState,
    raw: u16,
    row: u8,
    col: u8,
)
    requires
        st.last_raw != 0,
        raw_gap(st.last_raw as int, raw as int) < NOISE_GATE as int,
    ensures
        spec_step_state(act, deact, cal, st, raw) == st,
        spec_step_event(act, deact, cal, st, raw, row, col) is None,
{
}

/// Saturating unsigned 16-bit product.
pub open spec fn spec_sat_mul_u16(a: int, b: int) -> int {
    if a * b > u16::MAX as int {
        u16::MAX as int
    } else {
        a * b
    }
}

/// Saturating unsigned difference.
pub open spec fn spec_sat_sub(a: int, b: int) -> int {
    if a >= b {
        a - b
    } else {
        0
    }
}

/// Saturating unsigned 32-bit sum.
pub open spec fn spec_sat_add_u32(a: int, b: int) -> int {
    if a + b > u32::MAX as int {
        u32::MAX as int
    } else {
        a + b
    }
}

/// The calibrated zero derived from a key's accumulated sample sum:
/// the average over the calibration passes, or zero if it cannot be
/// represented as a raw sample.
pub open spec fn spec_calib_avg(acc: int) -> int {
    let avg = acc / CALIB_PASSES as int;
    if avg <= u16::MAX as int {
        avg
    } else {
        0
    }
}

/// Hall-effect analog matrix scanner.
pub struct AnalogHallMatrix {
    /// Actuation threshold in scaled travel units.
    act_threshold: u16,
    /// De-actuation threshold in scaled travel units.
    deact_threshold: u16,
    /// Microseconds to wait after selecting a column before sampling.
    settle_after_col_micros: u64,
    /// Number of rows.
    rows: usize,
    /// Number of columns.
    cols: usize,
    /// Calibration data for each key.
    calib: Grid2D<KeyCalib>,
    /// Dynamic per-key state.
    state: Grid2D<KeyState>,
    /// Per-key raw sums accumulated during calibration.
    acc: Grid2D<u32>,
    /// Whether calibration has been completed.
    calibrated: bool,
    /// Column strobe driver.
    cols_drv: Hc164Cols,
    /// Queue of pending key events.
    pending: EventQueue,
}

impl AnalogHallMatrix {
    /// Number of rows.
    pub closed spec fn spec_rows(self) -> int {
        self.rows as int
    }

    /// Number of columns.
    pub closed spec fn spec_cols(self) -> int {
        self.cols as int
    }

    /// Actuation threshold in scaled travel units.
    pub closed spec fn spec_act_threshold(self) -> u16 {
        self.act_threshold
    }

    /// De-actuation threshold in scaled travel units.
    pub closed spec fn spec_deact_threshold(self) -> u16 {
        self.deact_threshold
    }

    /// Microseconds to wait after selecting a column before sampling.
    pub closed spec fn spec_settle_micros(self) -> u64 {
        self.settle_after_col_micros
    }

    /// Whether calibration has been completed.
    pub closed spec fn spec_calibrated(self) -> bool {
        self.calibrated
    }

    /// Calibration record of the key at `(r, c)`.
    pub closed spec fn calib_at(self, r: int, c: int) -> KeyCalib {
        self.calib.at(r, c)
    }

    /// Dynamic state of the key at `(r, c)`.
    pub closed spec fn state_at(self, r: int, c: int) -> KeyState {
        self.state.at(r, c)
    }

    /// Accumulated calibration sum of the key at `(r, c)`.
    pub closed spec fn acc_at(self, r: int, c: int) -> u32 {
        self.acc.at(r, c)
    }

    /// The pending events, oldest first.
    pub closed spec fn events(self) -> Seq<KeyEvent> {
        self.pending.events()
    }

    /// Tracked position of the strobe's walking bit.
    pub closed spec fn strobe_pos(self) -> Option<usize> {
        self.cols_drv.spec_current()
    }

    /// Every column selection issued so far.
    pub closed spec fn strobe_log(self) -> Seq<usize> {
        self.cols_drv.log()
    }

    /// Microseconds between strobe bit transitions.
    pub closed spec fn strobe_bit_delay(self) -> u64 {
        self.cols_drv.spec_bit_delay()
    }

    /// Structural validity: the grids cover the matrix, the queue is
    /// within capacity, and the dimensions fit event coordinates.
    pub closed spec fn wf(self) -> bool {
        &&& self.calib.wf()
        &&& self.calib.spec_rows() == self.spec_rows()
        &&& self.calib.spec_cols() == self.spec_cols()
        &&& self.state.wf()
        &&& self.state.spec_rows() == self.spec_rows()
        &&& self.state.spec_cols() == self.spec_cols()
        &&& self.acc.wf()
        &&& self.acc.spec_rows() == self.spec_rows()
        &&& self.acc.spec_cols() == self.spec_cols()
        &&& self.pending.wf()
        &&& self.rows <= 255
        &&& self.cols <= 255
    }

    /// The calibration records of one column, top row first.
    pub open spec fn calib_col(self, col: int) -> Seq<KeyCalib> {
        Seq::new(self.spec_rows() as nat, |r: int| self.calib_at(r, col))
    }

    /// The key states of one column, top row first.
    pub open spec fn state_col(self, col: int) -> Seq<KeyState> {
        Seq::new(self.spec_rows() as nat, |r: int| self.state_at(r, col))
    }

    /// The configuration, thresholds and dimensions of `a` and `b`
    /// agree.
    pub open spec fn same_config(a: AnalogHallMatrix, b: AnalogHallMatrix) -> bool {
        &&& a.spec_rows() == b.spec_rows()
        &&& a.spec_cols() == b.spec_cols()
        &&& a.spec_act_threshold() == b.spec_act_threshold()
        &&& a.spec_deact_threshold() == b.spec_deact_threshold()
        &&& a.spec_settle_micros() == b.spec_settle_micros()
        &&& a.strobe_bit_delay() == b.strobe_bit_delay()
    }

    /// Create a matrix scanner.  Thresholds come from the actuation
    /// point and de-actuation offset, scaled and saturated; every key
    /// starts uncalibrated, unpressed and with no sample seen.
    pub fn new(rows: usize, cols: usize, cfg: HallCfg) -> (m: AnalogHallMatrix)
        requires
            rows <= 255,
            cols <= 255,
        ensures
            m.wf(),
            m.spec_rows() == rows,
            m.spec_cols() == cols,
            m.spec_act_threshold() as int == spec_sat_mul_u16(
                cfg.actuation_pt as int,
                TRAVEL_SCALE as int,
            ),
            m.spec_deact_threshold() as int == spec_sat_mul_u16(
                spec_sat_sub(cfg.actuation_pt as int, cfg.deact_offset as int),
                TRAVEL_SCALE as int,
            ),
            m.spec_settle_micros() == cfg.settle_after_col_micros,
            !m.spec_calibrated(),
            m.events() == Seq::<KeyEvent>::empty(),
            m.strobe_pos() is None,
            m.strobe_log() == Seq::<usize>::empty(),
            forall|r: int, c: int|
                0 <= r < rows && 0 <= c < cols ==> #[trigger] m.calib_at(r, c) == spec_key_calib(
                    crate::travel::UNCALIBRATED_ZERO as int,
                    crate::travel::UNCALIBRATED_ZERO as int - DEFAULT_FULL_RANGE as int,
                ),
            forall|r: int, c: int|
                0 <= r < rows && 0 <= c < cols ==> #[trigger] m.state_at(r, c) == (KeyState {
                    last_raw: 0,
                    pressed: false,
                    travel_scaled: 0,
                }),
            forall|r: int, c: int|
                0 <= r < rows && 0 <= c < cols ==> #[trigger] m.acc_at(r, c) == 0u32,
    {
        proof {
            lemma_mul_upper_bound(rows as int, 255, cols as int, 255);
        }
        let act_threshold = sat_mul_u16(cfg.actuation_pt, TRAVEL_SCALE);
        let deact_base = if cfg.actuation_pt >= cfg.deact_offset {
            cfg.actuation_pt - cfg.deact_offset
        } else {
            0
        };
        let deact_threshold = sat_mul_u16(deact_base, TRAVEL_SCALE);
        AnalogHallMatrix {
            act_threshold,
            deact_threshold,
            settle_after_col_micros: cfg.settle_after_col_micros,
            rows,
            cols,
            calib: Grid2D::new(rows, cols, KeyCalib::uncalibrated()),
            state: Grid2D::new(rows, cols, KeyState::new()),
            acc: Grid2D::new(rows, cols, 0u32),
            calibrated: false,
            cols_drv: Hc164Cols::new(),
            pending: EventQueue::new(),
        }
    }

    /// Number of rows.
    pub fn rows(&self) -> (n: usize)
        ensures
            n == self.spec_rows(),
    {
        self.rows
    }

    /// Number of columns.
    pub fn cols(&self) -> (n: usize)
        ensures
            n == self.spec_cols(),
    {
        self.cols
    }

    /// Actuation threshold in scaled travel units.
    pub fn act_threshold(&self) -> (t: u16)
        ensures
            t == self.spec_act_threshold(),
    {
        self.act_threshold
    }

    /// De-actuation threshold in scaled travel units.
    pub fn deact_threshold(&self) -> (t: u16)
        ensures
            t == self.spec_deact_threshold(),
    {
        self.deact_threshold
    }

    /// Microseconds to wait after selecting a column before sampling.
    pub fn settle_after_col_micros(&self) -> (t: u64)
        ensures
            t == self.spec_settle_micros(),
    {
        self.settle_after_col_micros
    }

    /// Whether the one-time zero calibration has not run yet.
    pub fn needs_zero_calibration(&self) -> (b: bool)
        ensures
            b == !self.spec_calibrated(),
    {
        !self.calibrated
    }

    /// Convert a raw sample into a scaled travel value for a key with
    /// calibration `cal`, keeping `prev` for unusable samples.
    pub fn travel_scaled_from(cal: &KeyCalib, prev: u16, raw: u16) -> (t: u16)
        ensures
            t as int == spec_travel_scaled_from(*cal, prev as int, raw as int),
    {
        if raw < VALID_RAW_MIN || raw > VALID_RAW_MAX {
            return prev;
        }
        let x: u16 = match apply_zero_offset(cal.zero, raw) {
            Some(x) => x,
            None => {
                return prev;
            },
        };
        if x > REF_ZERO_TRAVEL {
            return 0;
        }
        let delta: i32 = delta_from_ref(x);
        proof {
            lemma_delta_nonneg_below_ref(x as int);
        }
        if cal.scale_factor <= 0 {
            return 0;
        }
        proof {
            lemma_mul_upper_bound(delta as int, 27083, cal.scale_factor as int, i32::MAX as int);
        }
        let prod: u64 = (delta as u64) * (cal.scale_factor as u64) * (TRAVEL_SCALE as u64);
        let t64: u64 = prod / SCALE_DIVISOR;
        if t64 > FULL_TRAVEL_SCALED as u64 {
            FULL_TRAVEL_SCALED
        } else {
            t64 as u16
        }
    }

    /// Select a column and return the line operations to perform
    /// before sampling it: the strobe's selection sequence followed by
    /// the settle delay.
    pub fn select_column(&mut self, col: usize) -> (ops: Vec<LineOp>)
        requires
            old(self).wf(),
        ensures
            final(self).wf(),
            AnalogHallMatrix::same_config(*final(self), *old(self)),
            final(self).spec_calibrated() == old(self).spec_calibrated(),
            final(self).events() == old(self).events(),
            forall|r: int, c: int|
                0 <= r < old(self).spec_rows() && 0 <= c < old(self).spec_cols()
                    ==> #[trigger] final(self).calib_at(r, c) == old(self).calib_at(r, c)
                    && #[trigger] final(self).state_at(r, c) == old(self).state_at(r, c)
                    && #[trigger] final(self).acc_at(r, c) == old(self).acc_at(r, c),
            final(self).strobe_pos() == spec_select_pos(old(self).strobe_pos(), col),
            final(self).strobe_log() == old(self).strobe_log().push(col),
            col == 0 ==> ops@ == spec_select0_ops(old(self).strobe_bit_delay()) + seq![
                LineOp::WaitMicros(old(self).spec_settle_micros()),
            ],
            col != 0 ==> ops@ == seq![LineOp::WaitMicros(old(self).spec_settle_micros())],
    {
        let mut ops = self.cols_drv.select(col);
        ops.push(LineOp::WaitMicros(self.settle_after_col_micros));
        proof {
            if col == 0 {
                assert(ops@ =~= spec_select0_ops(old(self).strobe_bit_delay()) + seq![
                    LineOp::WaitMicros(old(self).spec_settle_micros()),
                ]);
            } else {
                assert(ops@ =~= seq![LineOp::WaitMicros(old(self).spec_settle_micros())]);
            }
        }
        ops
    }

    /// Advance the strobe to the next column after sampling, returning
    /// the line operations to perform.
    pub fn advance_column(&mut self) -> (ops: Vec<LineOp>)
        requires
            old(self).wf(),
        ensures
            final(self).wf(),
            AnalogHallMatrix::same_config(*final(self), *old(self)),
            final(self).spec_calibrated() == old(self).spec_calibrated(),
            final(self).events() == old(self).events(),
            forall|r: int, c: int|
                0 <= r < old(self).spec_rows() && 0 <= c < old(self).spec_cols()
                    ==> #[trigger] final(self).calib_at(r, c) == old(self).calib_at(r, c)
                    && #[trigger] final(self).state_at(r, c) == old(self).state_at(r, c)
                    && #[trigger] final(self).acc_at(r, c) == old(self).acc_at(r, c),
            final(self).strobe_pos() == spec_advance_pos(old(self).strobe_pos()),
            final(self).strobe_log() == old(self).strobe_log(),
            ops@ == spec_advance_ops(old(self).strobe_bit_delay()),
    {
        self.cols_drv.advance()
    }

    /// Dequeue the oldest pending event, if any.
    pub fn pop_event(&mut self) -> (r: Option<KeyEvent>)
        requires
            old(self).wf(),
        ensures
            final(self).wf(),
            AnalogHallMatrix::same_config(*final(self), *old(self)),
            final(self).spec_calibrated() == old(self).spec_calibrated(),
            final(self).strobe_pos() == old(self).strobe_pos(),
            final(self).strobe_log() == old(self).strobe_log(),
            forall|r: int, c: int|
                0 <= r < old(self).spec_rows() && 0 <= c < old(self).spec_cols()
                    ==> #[trigger] final(self).calib_at(r, c) == old(self).calib_at(r, c)
                    && #[trigger] final(self).state_at(r, c) == old(self).state_at(r, c)
                    && #[trigger] final(self).acc_at(r, c) == old(self).acc_at(r, c),
            old(self).events().len() == 0 ==> r is None
                && final(self).events() == old(self).events(),
            old(self).events().len() > 0 ==> r == Some(old(self).events()[0])
                && final(self).events() == old(self).events().drop_first(),
    {
        self.pending.pop()
    }

    /// Number of pending events.
    pub fn pending_len(&self) -> (n: usize)
        ensures
            n == self.events().len(),
    {
        self.pending.len()
    }

    /// Whether no event is pending.
    pub fn pending_is_empty(&self) -> (b: bool)
        ensures
            b == (self.events().len() == 0),
    {
        self.pending.is_empty()
    }

    /// Add one column's samples of one calibration pass to the per-key
    /// sums, saturating.
    pub fn calib_accumulate_column(&mut self, col: usize, samples: &Vec<u16>)
        requires
            old(self).wf(),
            col < old(self).spec_cols(),
            samples@.len() == old(self).spec_rows(),
        ensures
            final(self).wf(),
            AnalogHallMatrix::same_config(*final(self), *old(self)),
            final(self).spec_calibrated() == old(self).spec_calibrated(),
            final(self).events() == old(self).events(),
            final(self).strobe_pos() == old(self).strobe_pos(),
            final(self).strobe_log() == old(self).strobe_log(),
            forall|r: int, c: int|
                0 <= r < old(self).spec_rows() && 0 <= c < old(self).spec_cols()
                    ==> #[trigger] final(self).calib_at(r, c) == old(self).calib_at(r, c)
                    && #[trigger] final(self).state_at(r, c) == old(self).state_at(r, c),
            forall|r: int|
                0 <= r < old(self).spec_rows() ==> #[trigger] final(self).acc_at(r, col as int)
                    as int == spec_sat_add_u32(
                    old(self).acc_at(r, col as int) as int,
                    samples@[r] as int,
                ),
            forall|r: int, c: int|
                0 <= r < old(self).spec_rows() && 0 <= c < old(self).spec_cols() && c != col
                    ==> #[trigger] final(self).acc_at(r, c) == old(self).acc_at(r, c),
    {
        let ghost self0 = *self;
        let rows = self.rows;
        let mut r: usize = 0;
        while r < rows
            invariant
                self.wf(),
                rows == self.spec_rows(),
                r <= rows,
                col < self.spec_cols(),
                samples@.len() == rows,
                AnalogHallMatrix::same_config(*self, self0),
                self.calibrated == self0.calibrated,
                self.calib == self0.calib,
                self.state == self0.state,
                self.pending == self0.pending,
                self.cols_drv == self0.cols_drv,
                self.acc.wf(),
                self.acc.spec_rows() == rows,
                self.acc.spec_cols() == self.spec_cols(),
                forall|i: int|
                    0 <= i < r ==> #[trigger] self.acc.at(i, col as int) as int
                        == spec_sat_add_u32(
                        self0.acc.at(i, col as int) as int,
                        samples@[i] as int,
                    ),
                forall|i: int, c: int|
                    0 <= i < rows && 0 <= c < self.spec_cols() && !(c == col as int && i < r)
                        ==> #[trigger] self.acc.at(i, c) == self0.acc.at(i, c),
            decreases rows - r,
        {
            let v: u16 = samples[r];
            let cell: u32 = *self.acc.get(r, col).unwrap();
            let sum: u32 = if cell > u32::MAX - (v as u32) {
                u32::MAX
            } else {
                cell + (v as u32)
            };
            self.acc.set(r, col, sum);
            r = r + 1;
        }
    }

    /// Derive every key's calibration from the accumulated sums: the
    /// average over the passes becomes the key's zero, the nominal
    /// full-press sample sits the default range below it, and the
    /// one-time calibration is marked complete.
    pub fn finish_calibration(&mut self)
        requires
            old(self).wf(),
        ensures
            final(self).wf(),
            AnalogHallMatrix::same_config(*final(self), *old(self)),
            final(self).spec_calibrated(),
            final(self).events() == old(self).events(),
            final(self).strobe_pos() == old(self).strobe_pos(),
            final(self).strobe_log() == old(self).strobe_log(),
            forall|r: int, c: int|
                0 <= r < old(self).spec_rows() && 0 <= c < old(self).spec_cols()
                    ==> #[trigger] final(self).state_at(r, c) == old(self).state_at(r, c)
                    && #[trigger] final(self).acc_at(r, c) == old(self).acc_at(r, c),
            forall|r: int, c: int|
                0 <= r < old(self).spec_rows() && 0 <= c < old(self).spec_cols()
                    ==> #[trigger] final(self).calib_at(r, c) == spec_key_calib(
                    spec_calib_avg(old(self).acc_at(r, c) as int),
                    spec_sat_sub(
                        spec_calib_avg(old(self).acc_at(r, c) as int),
                        DEFAULT_FULL_RANGE as int,
                    ),
                ),
    {
        let ghost self0 = *self;
        let rows = self.rows;
        let cols = self.cols;
        let mut r: usize = 0;
        while r < rows
            invariant
                self.wf(),
                rows == self.spec_rows(),
                cols == self.spec_cols(),
                r <= rows,
                AnalogHallMatrix::same_config(*self, self0),
                self.calibrated == self0.calibrated,
                self.state == self0.state,
                self.acc == self0.acc,
                self.pending == self0.pending,
                self.cols_drv == self0.cols_drv,
                self.calib.wf(),
                self.calib.spec_rows() == rows,
                self.calib.spec_cols() == cols,
                forall|i: int, c: int|
                    0 <= i < r && 0 <= c < cols ==> #[trigger] self.calib.at(i, c)
                        == spec_key_calib(
                        spec_calib_avg(self0.acc.at(i, c) as int),
                        spec_sat_sub(
                            spec_calib_avg(self0.acc.at(i, c) as int),
                            DEFAULT_FULL_RANGE as int,
                        ),
                    ),
                forall|i: int, c: int|
                    0 <= i < rows && 0 <= c < cols && i >= r ==> #[trigger] self.calib.at(i, c)
                        == self0.calib.at(i, c),
            decreases rows - r,
        {
            let mut c: usize = 0;
            while c < cols
                invariant
                    self.wf(),
                    rows == self.spec_rows(),
                    cols == self.spec_cols(),
                    r < rows,
                    c <= cols,
                    AnalogHallMatrix::same_config(*self, self0),
                    self.calibrated == self0.calibrated,
                    self.state == self0.state,
                    self.acc == self0.acc,
                    self.pending == self0.pending,
                    self.cols_drv == self0.cols_drv,
                    self.calib.wf(),
                    self.calib.spec_rows() == rows,
                    self.calib.spec_cols() == cols,
                    forall|i: int, j: int|
                        0 <= i < r && 0 <= j < cols ==> #[trigger] self.calib.at(i, j)
                            == spec_key_calib(
                            spec_calib_avg(self0.acc.at(i, j) as int),
                            spec_sat_sub(
                                spec_calib_avg(self0.acc.at(i, j) as int),
                                DEFAULT_FULL_RANGE as int,
                            ),
                        ),
                    forall|j: int|
                        0 <= j < c ==> #[trigger] self.calib.at(r as int, j) == spec_key_calib(
                            spec_calib_avg(self0.acc.at(r as int, j) as int),
                            spec_sat_sub(
                                spec_calib_avg(self0.acc.at(r as int, j) as int),
                                DEFAULT_FULL_RANGE as int,
                            ),
                        ),
                    forall|i: int, j: int|
                        0 <= i < rows && 0 <= j < cols && (i > r || (i == r && j >= c))
                            ==> #[trigger] self.calib.at(i, j) == self0.calib.at(i, j),
                decreases cols - c,
            {
                let sum: u32 = *self.acc.get(r, c).unwrap();
                let avg32: u32 = sum / CALIB_PASSES;
                let avg: u16 = if avg32 <= u16::MAX as u32 {
                    avg32 as u16
                } else {
                    0
                };
                let full: u16 = if avg >= DEFAULT_FULL_RANGE {
                    avg - DEFAULT_FULL_RANGE
                } else {
                    0
                };
                let rec = KeyCalib::new(avg, full);
                self.calib.set(r, c, rec);
                c = c + 1;
            }
            r = r + 1;
        }
        self.calibrated = true;
    }

    /// Process the sampled raw values of one column, top row first:
    /// noise-gate each key, recompute its travel, apply the hysteresis
    /// thresholds, and enqueue an event for every key whose pressed
    /// state flips, in row order, evicting the oldest pending event
    /// when the queue is full.
    pub fn process_column_samples(&mut self, col: usize, samples: &Vec<u16>)
        requires
            old(self).wf(),
            col < old(self).spec_cols(),
            samples@.len() == old(self).spec_rows(),
        ensures
            final(self).wf(),
            AnalogHallMatrix::same_config(*final(self), *old(self)),
            final(self).spec_calibrated() == old(self).spec_calibrated(),
            final(self).strobe_pos() == old(self).strobe_pos(),
            final(self).strobe_log() == old(self).strobe_log(),
            forall|r: int, c: int|
                0 <= r < old(self).spec_rows() && 0 <= c < old(self).spec_cols()
                    ==> #[trigger] final(self).calib_at(r, c) == old(self).calib_at(r, c)
                    && #[trigger] final(self).acc_at(r, c) == old(self).acc_at(r, c),
            forall|r: int|
                0 <= r < old(self).spec_rows() ==> #[trigger] final(self).state_at(r, col as int)
                    == spec_step_state(
                    old(self).spec_act_threshold() as int,
                    old(self).spec_deact_threshold() as int,
                    old(self).calib_at(r, col as int),
                    old(self).state_at(r, col as int),
                    samples@[r],
                ),
            forall|r: int, c: int|
                0 <= r < old(self).spec_rows() && 0 <= c < old(self).spec_cols() && c != col
                    ==> #[trigger] final(self).state_at(r, c) == old(self).state_at(r, c),
            final(self).events() == spec_scan_col_events(
                old(self).spec_act_threshold() as int,
                old(self).spec_deact_threshold() as int,
                old(self).calib_col(col as int),
                old(self).state_col(col as int),
                samples@,
                col as u8,
                old(self).events(),
                old(self).spec_rows(),
            ),
    {
        let ghost self0 = *self;
        let rows = self.rows;
        let act = self.act_threshold;
        let deact = self.deact_threshold;
        let mut r: usize = 0;
        while r < rows
            invariant
                self.wf(),
                rows == self.spec_rows(),
                col < self.spec_cols(),
                samples@.len() == rows,
                r <= rows,
                act == self0.act_threshold,
                deact == self0.deact_threshold,
                AnalogHallMatrix::same_config(*self, self0),
                self.calibrated == self0.calibrated,
                self.calib == self0.calib,
                self.acc == self0.acc,
                self.cols_drv == self0.cols_drv,
                self.state.wf(),
                self.state.spec_rows() == rows,
                self.state.spec_cols() == self.spec_cols(),
                self.pending.wf(),
                forall|i: int|
                    0 <= i < r ==> #[trigger] self.state.at(i, col as int) == spec_step_state(
                        act as int,
                        deact as int,
                        self0.calib.at(i, col as int),
                        self0.state.at(i, col as int),
                        samples@[i],
                    ),
                forall|i: int, c: int|
                    0 <= i < rows && 0 <= c < self.spec_cols() && !(c == col as int && i < r)
                        ==> #[trigger] self.state.at(i, c) == self0.state.at(i, c),
                self.pending.events() == spec_scan_col_events(
                    act as int,
                    deact as int,
                    self0.calib_col(col as int),
                    self0.state_col(col as int),
                    samples@,
                    col as u8,
                    self0.pending.events(),
                    r as int,
                ),
            decreases rows - r,
        {
            let raw: u16 = samples[r];
            let cal: KeyCalib = *self.calib.get(r, col).unwrap();
            let st: KeyState = *self.state.get(r, col).unwrap();
            let ghost pend_before = self.pending.events();
            let ghost i = r as int;

            let gap: u16 = if st.last_raw >= raw {
                st.last_raw - raw
            } else {
                raw - st.last_raw
            };
            let gated: bool = st.last_raw != 0 && gap < NOISE_GATE;
            if !gated {
                let new_travel = Self::travel_scaled_from(&cal, st.travel_scaled, raw);
                if new_travel == st.travel_scaled {
                    self.state.set(
                        r,
                        col,
                        KeyState { last_raw: raw, pressed: st.pressed, travel_scaled: st.travel_scaled },
                    );
                } else {
                    let now_pressed = if st.pressed {
                        new_travel >= deact
                    } else {
                        new_travel >= act
                    };
                    self.state.set(
                        r,
                        col,
                        KeyState { last_raw: raw, pressed: now_pressed, travel_scaled: new_travel },
                    );
                    if now_pressed != st.pressed {
                        let ev = KeyEvent { row: r as u8, col: col as u8, pressed: now_pressed };
                        self.pending.push_evict(ev);
                    }
                }
            }
            proof {
                assert(self0.calib_col(col as int)[i] == cal);
                assert(self0.state_col(col as int)[i] == st);
                assert(self.state.at(i, col as int) == spec_step_state(
                    act as int,
                    deact as int,
                    cal,
                    st,
                    samples@[i],
                ));
                assert(spec_scan_col_events(
                    act as int,
                    deact as int,
                    self0.calib_col(col as int),
                    self0.state_col(col as int),
                    samples@,
                    col as u8,
                    self0.pending.events(),
                    i + 1,
                ) == match spec_step_event(
                    act as int,
                    deact as int,
                    cal,
                    st,
                    samples@[i],
                    i as u8,
                    col as u8,
                ) {
                    Some(e) => spec_push_evict(pend_before, e),
                    None => pend_before,
                });
            }
            r = r + 1;
        }
    }
}

/// Saturating u16 multiplication.
fn sat_mul_u16(a: u16, b: u16) -> (r: u16)
    ensures
        r as int == spec_sat_mul_u16(a as int, b as int),
{
    proof {
        lemma_mul_upper_bound(a as int, u16::MAX as int, b as int, u16::MAX as int);
    }
    let p: u32 = (a as u32) * (b as u32);
    if p > u16::MAX as u32 {
        u16::MAX
    } else {
        p as u16
    }
}

} // verus!

