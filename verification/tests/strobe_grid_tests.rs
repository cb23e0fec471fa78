use hall_matrix::grid::Grid2D;
use hall_matrix::strobe::{Hc164Cols, LineOp};

fn select0_ops(bit_delay: u64) -> Vec<LineOp> {
    vec![
        LineOp::MrLow,
        LineOp::WaitMicros(2),
        LineOp::MrHigh,
        LineOp::WaitMicros(2),
        LineOp::DsHigh,
        LineOp::WaitMicros(bit_delay),
        LineOp::CpHigh,
        LineOp::WaitMicros(bit_delay),
        LineOp::CpLow,
        LineOp::WaitMicros(bit_delay),
        LineOp::DsLow,
    ]
}

fn advance_ops(bit_delay: u64) -> Vec<LineOp> {
    vec![
        LineOp::DsLow,
        LineOp::WaitMicros(bit_delay),
        LineOp::CpHigh,
        LineOp::WaitMicros(bit_delay),
        LineOp::CpLow,
        LineOp::WaitMicros(bit_delay),
    ]
}

#[test]
fn select_zero_resets_and_arms_the_walking_bit() {
    let mut s = Hc164Cols::new();
    let ops = s.select(0);
    assert_eq!(ops, select0_ops(1));
}

#[test]
fn select_nonzero_is_a_no_op() {
    let mut s = Hc164Cols::new();
    let _ = s.select(0);
    let _ = s.advance();
    let ops = s.select(1);
    assert!(ops.is_empty());
}

#[test]
fn advance_shifts_in_a_low_bit() {
    let mut s = Hc164Cols::new();
    let _ = s.select(0);
    let ops = s.advance();
    assert_eq!(ops, advance_ops(1));
}

#[test]
fn unselect_all_only_lowers_data() {
    let mut s = Hc164Cols::new();
    let ops = s.unselect_all();
    assert_eq!(ops, vec![LineOp::DsLow]);
}

#[test]
fn column_cycle_integrity() {
    // Across several full scans, only select(0) touches the hardware;
    // every other selection is a no-op, and each pass walks the
    // columns 0..COL-1 in ascending order, one advance per column.
    const COLS: usize = 21;
    let mut s = Hc164Cols::new();
    for _pass in 0..3 {
        for col in 0..COLS {
            let sel = s.select(col);
            if col == 0 {
                assert_eq!(sel, select0_ops(1));
            } else {
                assert!(sel.is_empty());
            }
            let adv = s.advance();
            assert_eq!(adv, advance_ops(1));
        }
    }
}

#[test]
fn grid_round_trip() {
    let mut g: Grid2D<u32> = Grid2D::new(3, 4, 7);
    assert_eq!(g.rows(), 3);
    assert_eq!(g.cols(), 4);
    assert_eq!(g.get(2, 3), Some(&7));
    assert_eq!(g.get(3, 0), None);
    assert_eq!(g.get(0, 4), None);
    g.set(1, 2, 42);
    assert_eq!(g.get(1, 2), Some(&42));
    assert_eq!(g.get(1, 1), Some(&7));
    assert_eq!(g.get(2, 2), Some(&7));
    *g.get_mut(0, 0) = 9;
    assert_eq!(g.get(0, 0), Some(&9));
}

#[test]
fn grid_iter_cells_row_major() {
    let mut g: Grid2D<u8> = Grid2D::new(2, 2, 0);
    g.set(0, 1, 1);
    g.set(1, 0, 2);
    g.set(1, 1, 3);
    let cells = g.iter_cells();
    assert_eq!(
        cells,
        vec![((0, 0), 0), ((0, 1), 1), ((1, 0), 2), ((1, 1), 3)]
    );
}
