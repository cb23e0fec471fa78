//! Column strobe protocol for a serial-in/parallel-out shift register.
//!
//! One logic-high bit walks through the register; the output holding it
//! selects the active column.  `select(0)` resets the register and
//! shifts the bit in; `advance` shifts a low bit, moving the walking
//! bit one column onward.  The hardware gives no feedback, so this
//! module tracks the bit position explicitly: a `select` out of step
//! with the tracked position records the desynchronization instead of
//! hiding it.
//!
//! Methods return the line operations to perform; driving the three
//! GPIO lines and waiting out the delays is the caller's part.

use vstd::prelude::*;

verus! {

/// One operation on the strobe's three lines, or a pause.
#[derive(Clone, Copy, Debug, PartialEq, Eq, Structural)]
pub enum LineOp {
    /// Drive the serial data line high.
    DsHigh,
    /// Drive the serial data line low.
    DsLow,
    /// Drive the shift clock high.
    CpHigh,
    /// Drive the shift clock low.
    CpLow,
    /// Assert master reset (active low).
    MrLow,
    /// Release master reset.
    MrHigh,
    /// Hold the lines for this many microseconds.
    WaitMicros(u64),
}

/// The operations of one clock pulse.
pub open spec fn spec_pulse_ops(bit_delay: u64) -> Seq<LineOp> {
    seq![
        LineOp::CpHigh,
        LineOp::WaitMicros(bit_delay),
        LineOp::CpLow,
        LineOp::WaitMicros(bit_delay),
    ]
}

/// The operations of a master reset pulse.
pub open spec fn spec_reset_ops() -> Seq<LineOp> {
    seq![LineOp::MrLow, LineOp::WaitMicros(2), LineOp::MrHigh, LineOp::WaitMicros(2)]
}

/// The operations that re-arm the walking bit at column zero: reset,
/// then shift in a single high bit.
pub open spec fn spec_select0_ops(bit_delay: u64) -> Seq<LineOp> {
    spec_reset_ops() + seq![LineOp::DsHigh, LineOp::WaitMicros(bit_delay)] + spec_pulse_ops(
        bit_delay,
    ) + seq![LineOp::DsLow]
}

/// The operations that advance the walking bit by one column: shift in
/// a single low bit.
pub open spec fn spec_advance_ops(bit_delay: u64) -> Seq<LineOp> {
    seq![LineOp::DsLow, LineOp::WaitMicros(bit_delay)] + spec_pulse_ops(bit_delay)
}

/// Where the walking bit sits after `select(col)`: column zero re-arms
/// it, a matching in-sync selection keeps it, anything else loses it.
pub open spec fn spec_select_pos(cur: Option<usize>, col: usize) -> Option<usize> {
    if col == 0 {
        Some(0usize)
    } else if cur == Some(col) {
        cur
    } else {
        None
    }
}

/// Where the walking bit sits after `advance`.
pub open spec fn spec_advance_pos(cur: Option<usize>) -> Option<usize> {
    match cur {
        Some(c) => if c < usize::MAX {
            Some((c + 1) as usize)
        } else {
            None
        },
        None => None,
    }
}

/// Shift-register column selector.
pub struct Hc164Cols {
    /// Microseconds between bit transitions.
    bit_delay_micros: u64,
    /// Tracked position of the walking bit, if known to be in step.
    current: Option<usize>,
    /// Every column selection issued, in order.
    selected_log: Ghost<Seq<usize>>,
}

impl Hc164Cols {
    /// Microseconds between bit transitions.
    pub closed spec fn spec_bit_delay(self) -> u64 {
        self.bit_delay_micros
    }

    /// Tracked position of the walking bit.
    pub closed spec fn spec_current(self) -> Option<usize> {
        self.current
    }

    /// Every column selection issued so far, in order.
    pub closed spec fn log(self) -> Seq<usize> {
        self.selected_log@
    }

    /// Create a column selector with a one-microsecond bit delay.
    /// The hardware position is unknown until the first `select(0)`.
    pub fn new() -> (s: Self)
        ensures
            s.spec_bit_delay() == 1u64,
            s.spec_current() is None,
            s.log() == Seq::<usize>::empty(),
    {
        Hc164Cols { bit_delay_micros: 1, current: None, selected_log: Ghost(Seq::empty()) }
    }

    /// Select a column.  Only column zero acts on the hardware (reset,
    /// then shift in the walking bit); for any later column the bit
    /// was already positioned by the preceding `advance` calls.
    pub fn select(&mut self, col: usize) -> (ops: Vec<LineOp>)
        ensures
            final(self).spec_bit_delay() == old(self).spec_bit_delay(),
            final(self).spec_current() == spec_select_pos(old(self).spec_current(), col),
            final(self).log() == old(self).log().push(col),
            col == 0 ==> ops@ == spec_select0_ops(old(self).spec_bit_delay()),
            col != 0 ==> ops@ == Seq::<LineOp>::empty(),
    {
        let mut ops: Vec<LineOp> = Vec::new();
        if col == 0 {
            ops.push(LineOp::MrLow);
            ops.push(LineOp::WaitMicros(2));
            ops.push(LineOp::MrHigh);
            ops.push(LineOp::WaitMicros(2));
            ops.push(LineOp::DsHigh);
            ops.push(LineOp::WaitMicros(self.bit_delay_micros));
            ops.push(LineOp::CpHigh);
            ops.push(LineOp::WaitMicros(self.bit_delay_micros));
            ops.push(LineOp::CpLow);
            ops.push(LineOp::WaitMicros(self.bit_delay_micros));
            ops.push(LineOp::DsLow);
            self.current = Some(0);
            proof {
                assert(ops@ =~= spec_select0_ops(self.bit_delay_micros));
            }
        } else {
            let in_sync = match self.current {
                Some(c) => c == col,
                None => false,
            };
            if !in_sync {
                self.current = None;
            }
            proof {
                assert(ops@ =~= Seq::<LineOp>::empty());
            }
        }
        proof {
            self.selected_log@ = old(self).selected_log@.push(col);
        }
        ops
    }

    /// Advance the walking bit to the next column by shifting in a low
    /// bit.  Must be called once per column after sampling it.
    pub fn advance(&mut self) -> (ops: Vec<LineOp>)
        ensures
            final(self).spec_bit_delay() == old(self).spec_bit_delay(),
            final(self).spec_current() == spec_advance_pos(old(self).spec_current()),
            final(self).log() == old(self).log(),
            ops@ == spec_advance_ops(old(self).spec_bit_delay()),
    {
        let mut ops: Vec<LineOp> = Vec::new();
        ops.push(LineOp::DsLow);
        ops.push(LineOp::WaitMicros(self.bit_delay_micros));
        ops.push(LineOp::CpHigh);
        ops.push(LineOp::WaitMicros(self.bit_delay_micros));
        ops.push(LineOp::CpLow);
        ops.push(LineOp::WaitMicros(self.bit_delay_micros));
        self.current = match self.current {
            Some(c) => if c < usize::MAX {
                Some(c + 1)
            } else {
                None
            },
            None => None,
        };
        proof {
            assert(ops@ =~= spec_advance_ops(self.bit_delay_micros));
        }
        ops
    }

    /// Leave the data line low without touching the register.
    pub fn unselect_all(&mut self) -> (ops: Vec<LineOp>)
        ensures
            *final(self) == *old(self),
            ops@ == seq![LineOp::DsLow],
    {
        let mut ops: Vec<LineOp> = Vec::new();
        ops.push(LineOp::DsLow);
        proof {
            assert(ops@ =~= seq![LineOp::DsLow]);
        }
        ops
    }
}

/// Position of the walking bit after the tail of a scan pass: for each
/// column `k`, `k+1`, ... up to `n-1` in turn, a `select` followed by
/// an `advance`.
pub open spec fn spec_pass_pos(cur: Option<usize>, k: int, n: int) -> Option<usize>
    decreases n - k,
{
    if k < 0 || k >= n {
        cur
    } else {
        spec_pass_pos(spec_advance_pos(spec_select_pos(cur, k as usize)), k + 1, n)
    }
}

/// The selection log after the same tail of a scan pass.
pub open spec fn spec_pass_log(log: Seq<usize>, k: int, n: int) -> Seq<usize>
    decreases n - k,
{
    if k < 0 || k >= n {
        log
    } else {
        spec_pass_log(log.push(k as usize), k + 1, n)
    }
}

/// From an in-step position `k`, the rest of a pass stays in step and
/// ends one past the last column.
proof fn lemma_pass_pos_from(k: int, n: int)
    requires
        0 <= k < n,
        n <= usize::MAX,
    ensures
        spec_pass_pos(Some(k as usize), k, n) == Some(n as usize),
    decreases n - k,
{
    let cur1 = spec_select_pos(Some(k as usize), k as usize);
    let cur2 = spec_advance_pos(cur1);
    assert(cur2 == Some((k + 1) as usize));
    if k + 1 < n {
        lemma_pass_pos_from(k + 1, n);
    } else {
        assert(spec_pass_pos(cur2, k + 1, n) == cur2);
    }
}

/// Column cycle integrity, position half: whatever state the strobe
/// starts a pass in, selecting and advancing columns `0` to `n-1` in
/// order re-arms the walking bit at column zero and steps it in
/// lockstep, ending one past the last column.
pub proof fn lemma_pass_pos_sync(cur: Option<usize>, n: int)
    requires
        1 <= n <= usize::MAX,
    ensures
        spec_pass_pos(cur, 0, n) == Some(n as usize),
{
    let cur1 = spec_advance_pos(spec_select_pos(cur, 0));
    assert(cur1 == Some(1usize));
    if n == 1 {
        assert(spec_pass_pos(cur1, 1, n) == cur1);
    } else {
        lemma_pass_pos_from(1, n);
    }
}

/// The selection log after `passes` full scan passes over `n` columns.
pub open spec fn spec_passes_log(log: Seq<usize>, n: int, passes: int) -> Seq<usize>
    decreases passes,
{
    if passes <= 0 {
        log
    } else {
        spec_passes_log(spec_pass_log(log, 0, n), n, passes - 1)
    }
}

/// The ascending column sequence of one pass, repeated.
pub open spec fn spec_repeated_columns(n: int, passes: int) -> Seq<usize>
    decreases passes,
{
    if passes <= 0 || n < 0 {
        Seq::empty()
    } else {
        Seq::new(n as nat, |i: int| i as usize) + spec_repeated_columns(n, passes - 1)
    }
}

/// Column cycle integrity across scans: a trace of `passes` full
/// passes appends the columns `0` through `n-1`, in ascending order,
/// exactly once per pass, to the selection log.
pub proof fn lemma_passes_log(log: Seq<usize>, n: int, passes: int)
    requires
        0 <= n,
        0 <= passes,
    ensures
        spec_passes_log(log, n, passes) == log + spec_repeated_columns(n, passes),
    decreases passes,
{
    if passes <= 0 {
        assert(spec_passes_log(log, n, passes) =~= log + spec_repeated_columns(n, passes));
    } else {
        lemma_pass_log(log, 0, n);
        lemma_passes_log(spec_pass_log(log, 0, n), n, passes - 1);
        assert((log + Seq::new(n as nat, |i: int| i as usize)) + spec_repeated_columns(
            n,
            passes - 1,
        ) =~= log + spec_repeated_columns(n, passes));
    }
}

/// Column cycle integrity, order half: a full pass appends exactly the
/// columns `0, 1, ..., n-1`, each once, in ascending order, to the
/// selection log.
pub proof fn lemma_pass_log(log: Seq<usize>, k: int, n: int)
    requires
        0 <= k <= n,
    ensures
        spec_pass_log(log, k, n) == log + Seq::new((n - k) as nat, |i: int| (k + i) as usize),
    decreases n - k,
{
    if k >= n {
        assert(spec_pass_log(log, k, n) =~= log + Seq::new((n - k) as nat, |i: int| (k + i) as usize));
    } else {
        lemma_pass_log(log.push(k as usize), k + 1, n);
        assert(log.push(k as usize) + Seq::new((n - k - 1) as nat, |i: int| (k + 1 + i) as usize)
            =~= log + Seq::new((n - k) as nat, |i: int| (k + i) as usize));
    }
}

} // verus!
