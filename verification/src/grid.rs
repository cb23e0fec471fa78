//! Fixed-size two-dimensional grid: row-major storage indexed by
//! `(row, col)`, bounds-checked at construction and never resized.

use vstd::prelude::*;
use vstd::arithmetic::mul::{lemma_mul_inequality, lemma_mul_is_distributive_add_other_way};

verus! {

/// The flat row-major index of a cell lies inside the grid's storage.
proof fn lemma_grid_index(row: int, col: int, rows: int, cols: int)
    requires
        0 <= row < rows,
        0 <= col < cols,
    ensures
        0 <= row * cols + col < rows * cols,
        row * cols + col <= (rows - 1) * cols + (cols - 1),
{
    lemma_mul_inequality(0, row, cols);
    lemma_mul_inequality(row, rows - 1, cols);
    lemma_mul_is_distributive_add_other_way(cols, rows - 1, 1);
}

/// Two-dimensional grid of per-key data.
pub struct Grid2D<T> {
    /// Number of rows.
    rows: usize,
    /// Number of columns.
    cols: usize,
    /// Cell storage, row-major: cell `(r, c)` lives at `r * cols + c`.
    cells: Vec<T>,
}

impl<T: Copy> Grid2D<T> {
    /// The storage exactly covers `rows * cols` cells.
    pub closed spec fn wf(self) -> bool {
        self.cells@.len() == self.spec_rows() * self.spec_cols()
    }

    /// Number of rows.
    pub closed spec fn spec_rows(self) -> int {
        self.rows as int
    }

    /// Number of columns.
    pub closed spec fn spec_cols(self) -> int {
        self.cols as int
    }

    /// The value held at `(row, col)`.
    pub closed spec fn at(self, row: int, col: int) -> T {
        self.cells@[row * self.spec_cols() + col]
    }

    /// Create a grid with every cell set to `fill`.
    pub fn new(rows: usize, cols: usize, fill: T) -> (g: Grid2D<T>)
        requires
            rows * cols <= usize::MAX,
        ensures
            g.wf(),
            g.spec_rows() == rows,
            g.spec_cols() == cols,
            forall|r: int, c: int|
                0 <= r < rows && 0 <= c < cols ==> #[trigger] g.at(r, c) == fill,
    {
        let n: usize = rows * cols;
        let mut cells: Vec<T> = Vec::new();
        let mut i: usize = 0;
        while i < n
            invariant
                i <= n,
                cells@.len() == i,
                forall|j: int| 0 <= j < i ==> cells@[j] == fill,
            decreases n - i,
        {
            cells.push(fill);
            i = i + 1;
        }
        let g = Grid2D { rows, cols, cells };
        proof {
            assert forall|r: int, c: int|
                0 <= r < rows && 0 <= c < cols implies #[trigger] g.at(r, c) == fill by {
                lemma_grid_index(r, c, rows as int, cols as int);
            }
        }
        g
    }

    /// Number of rows.
    pub fn rows(&self) -> (n: usize)
        ensures
            n == self.spec_rows(),
    {
        self.rows
    }

    /// Number of columns.
    pub fn cols(&self) -> (n: usize)
        ensures
            n == self.spec_cols(),
    {
        self.cols
    }

    /// Read the cell at `(row, col)` if it exists.
    pub fn get(&self, row: usize, col: usize) -> (r: Option<&T>)
        requires
            self.wf(),
        ensures
            row < self.spec_rows() && col < self.spec_cols() ==> r == Some(
                &self.at(row as int, col as int),
            ),
            !(row < self.spec_rows() && col < self.spec_cols()) ==> r is None,
    {
        if row < self.rows && col < self.cols {
            let _n: usize = self.cells.len();
            proof {
                lemma_grid_index(row as int, col as int, self.spec_rows(), self.spec_cols());
            }
            let idx: usize = row * self.cols + col;
            Some(&self.cells[idx])
        } else {
            None
        }
    }

    /// Borrow the cell at `(row, col)` mutably.
    pub fn get_mut(&mut self, row: usize, col: usize) -> (e: &mut T)
        requires
            old(self).wf(),
            row < old(self).spec_rows(),
            col < old(self).spec_cols(),
        ensures
            *e == old(self).at(row as int, col as int),
            final(self).wf(),
            final(self).spec_rows() == old(self).spec_rows(),
            final(self).spec_cols() == old(self).spec_cols(),
            final(self).at(row as int, col as int) == *final(e),
            forall|r: int, c: int|
                0 <= r < old(self).spec_rows() && 0 <= c < old(self).spec_cols() && !(r == row
                    && c == col) ==> #[trigger] final(self).at(r, c) == old(self).at(r, c),
    {
        let _n: usize = self.cells.len();
        proof {
            lemma_grid_index(row as int, col as int, self.spec_rows(), self.spec_cols());
        }
        let idx: usize = row * self.cols + col;
        let ghost cols = self.spec_cols();
        let ghost rows = self.spec_rows();
        let e = &mut self.cells[idx];
        proof {
            assert forall|r: int, c: int|
                0 <= r < rows && 0 <= c < cols && !(r == row as int && c == col as int) implies (0
                <= #[trigger] (r * cols + c) && r * cols + c < rows * cols && r * cols + c
                != idx as int) by {
                lemma_grid_index(r, c, rows, cols);
                lemma_grid_rowmajor_injective(r, c, row as int, col as int, cols);
            }
        }
        e
    }

    /// Overwrite the cell at `(row, col)`.
    pub fn set(&mut self, row: usize, col: usize, v: T)
        requires
            old(self).wf(),
            row < old(self).spec_rows(),
            col < old(self).spec_cols(),
        ensures
            final(self).wf(),
            final(self).spec_rows() == old(self).spec_rows(),
            final(self).spec_cols() == old(self).spec_cols(),
            final(self).at(row as int, col as int) == v,
            forall|r: int, c: int|
                0 <= r < old(self).spec_rows() && 0 <= c < old(self).spec_cols() && !(r == row
                    && c == col) ==> #[trigger] final(self).at(r, c) == old(self).at(r, c),
    {
        let e = self.get_mut(row, col);
        *e = v;
    }

    /// List every cell with its coordinates, row-major.
    pub fn iter_cells(&self) -> (v: Vec<((usize, usize), T)>)
        requires
            self.wf(),
        ensures
            v@.len() == self.spec_rows() * self.spec_cols(),
            forall|r: int, c: int|
                0 <= r < self.spec_rows() && 0 <= c < self.spec_cols() ==> #[trigger] v@[r
                    * self.spec_cols() + c] == ((r as usize, c as usize), self.at(r, c)),
    {
        let mut v: Vec<((usize, usize), T)> = Vec::new();
        let mut r: usize = 0;
        while r < self.rows
            invariant
                self.wf(),
                r <= self.spec_rows(),
                v@.len() == r * self.spec_cols(),
                forall|i: int, j: int|
                    0 <= i < r && 0 <= j < self.spec_cols() ==> #[trigger] v@[i * self.spec_cols()
                        + j] == ((i as usize, j as usize), self.at(i, j)),
            decreases self.rows - r,
        {
            let mut c: usize = 0;
            proof {
                lemma_mul_inequality(r as int + 1, self.spec_rows(), self.spec_cols());
                lemma_mul_is_distributive_add_other_way(self.spec_cols(), r as int, 1);
            }
            while c < self.cols
                invariant
                    self.wf(),
                    r < self.spec_rows(),
                    c <= self.spec_cols(),
                    (r + 1) * self.spec_cols() <= self.spec_rows() * self.spec_cols(),
                    (r + 1) * self.spec_cols() == r * self.spec_cols() + self.spec_cols(),
                    v@.len() == r * self.spec_cols() + c,
                    forall|i: int, j: int|
                        0 <= i < r && 0 <= j < self.spec_cols() ==> #[trigger] v@[i
                            * self.spec_cols() + j] == ((i as usize, j as usize), self.at(i, j)),
                    forall|j: int|
                        0 <= j < c ==> #[trigger] v@[r as int * self.spec_cols() + j] == (
                        (r, j as usize),
                        self.at(r as int, j),
                        ),
                decreases self.cols - c,
            {
                let _n: usize = self.cells.len();
                proof {
                    lemma_grid_index(r as int, c as int, self.spec_rows(), self.spec_cols());
                    let ghost colsg = self.spec_cols();
                    assert forall|i: int, j: int| 0 <= i < r && 0 <= j < colsg implies (0
                        <= #[trigger] (i * colsg + j) && i * colsg + j < r as int * colsg) by {
                        lemma_grid_index(i, j, r as int, colsg);
                    }
                }
                let idx: usize = r * self.cols + c;
                v.push(((r, c), self.cells[idx]));
                c = c + 1;
            }
            r = r + 1;
        }
        proof {
            lemma_mul_inequality(self.spec_rows(), self.spec_rows(), self.spec_cols());
        }
        v
    }
}

/// Distinct in-bounds coordinates map to distinct row-major indices.
proof fn lemma_grid_rowmajor_injective(r1: int, c1: int, r2: int, c2: int, cols: int)
    by (nonlinear_arith)
    requires
        0 <= c1 < cols,
        0 <= c2 < cols,
        0 <= r1,
        0 <= r2,
        !(r1 == r2 && c1 == c2),
    ensures
        r1 * cols + c1 != r2 * cols + c2,
{
}

} // verus!
