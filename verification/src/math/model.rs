//! The mathematical model of a matrix: its extents and its entries in row-major order.

use super::numeric::{elem_difference, elem_sum, elem_zero, reduce, Numeric};
use vstd::prelude::*;

verus! {

/// A matrix as a mathematical value: `rows` by `cols` entries, the entry at row `r` and
/// column `c` standing at index `r * cols + c` of `data`.
#[verifier::ext_equal]
pub struct MatrixView<T> {
    pub rows: nat,
    pub cols: nat,
    pub data: Seq<T>,
}

/// The sum of the integer products `a[r][k] * b[k][c]` for `k` below `n`.
pub open spec fn dot<T: Numeric>(a: MatrixView<T>, b: MatrixView<T>, r: int, c: int, n: int) -> int
    decreases n,
{
    if n <= 0 {
        0
    } else {
        dot(a, b, r, c, n - 1) + a.at(r, n - 1).value() * b.at(n - 1, c).value()
    }
}

impl<T: Numeric> MatrixView<T> {
    /// The data holds exactly one entry for each position.
    pub open spec fn wf(self) -> bool {
        self.data.len() == self.rows * self.cols
    }

    /// The entry at row `r` and column `c`.
    pub open spec fn at(self, r: int, c: int) -> T {
        self.data[r * self.cols + c]
    }

    /// Whether row `r` and column `c` name a position of the matrix.
    pub open spec fn has(self, r: int, c: int) -> bool {
        0 <= r < self.rows && 0 <= c < self.cols
    }

    /// The matrix of the given extents whose entry at `(r, c)` is `f(r, c)`.
    pub open spec fn from_fn(rows: nat, cols: nat, f: spec_fn(int, int) -> T) -> Self {
        MatrixView {
            rows,
            cols,
            data: Seq::new(rows * cols, |k: int| f(k / cols as int, k % cols as int)),
        }
    }

    /// The matrix of the given extents whose every entry is zero.
    pub open spec fn zeros(rows: nat, cols: nat) -> Self {
        Self::from_fn(rows, cols, |r: int, c: int| elem_zero::<T>())
    }

    /// As many rows as columns.
    pub open spec fn is_square(self) -> bool {
        self.rows == self.cols
    }

    /// Rows and columns exchanged: the entry at `(c, r)` is the entry of `self` at `(r, c)`.
    pub open spec fn transposed(self) -> Self {
        Self::from_fn(self.cols, self.rows, |r: int, c: int| self.at(c, r))
    }

    /// The `n` by `n` matrix that holds `self` in its top-left corner and zero elsewhere.
    pub open spec fn padded(self, n: nat) -> Self {
        Self::from_fn(
            n,
            n,
            |r: int, c: int|
                if r < self.rows && c < self.cols {
                    self.at(r, c)
                } else {
                    elem_zero::<T>()
                },
        )
    }

    /// The block of the given extents whose top-left entry is the entry of `self` at
    /// `(row0, col0)`.
    pub open spec fn block(self, row0: int, col0: int, rows: nat, cols: nat) -> Self {
        Self::from_fn(rows, cols, |r: int, c: int| self.at(row0 + r, col0 + c))
    }

    /// The top-left corner of `self` with the given extents.
    pub open spec fn cropped(self, rows: nat, cols: nat) -> Self {
        self.block(0, 0, rows, cols)
    }

    /// The quadrant in block row `qr` and block column `qc` (each 0 or 1) of a matrix
    /// bisected along both axes.
    pub open spec fn quarter(self, qr: int, qc: int) -> Self {
        self.block(qr * (self.rows / 2), qc * (self.cols / 2), self.rows / 2, self.cols / 2)
    }

    /// The matrix with `q1` top-left, `q2` top-right, `q3` bottom-left and `q4`
    /// bottom-right, for four square quadrants of one side.
    pub open spec fn merged(q1: Self, q2: Self, q3: Self, q4: Self) -> Self {
        let s = q1.rows as int;
        Self::from_fn(
            2 * q1.rows,
            2 * q1.rows,
            |r: int, c: int|
                if r < s {
                    if c < s {
                        q1.at(r, c)
                    } else {
                        q2.at(r, c - s)
                    }
                } else {
                    if c < s {
                        q3.at(r - s, c)
                    } else {
                        q4.at(r - s, c - s)
                    }
                },
        )
    }

    /// Entry by entry sum of two matrices of the same extents.
    pub open spec fn sum(self, other: Self) -> Self {
        MatrixView {
            rows: self.rows,
            cols: self.cols,
            data: Seq::new(self.data.len(), |k: int| elem_sum(self.data[k], other.data[k])),
        }
    }

    /// Entry by entry difference of two matrices of the same extents.
    pub open spec fn difference(self, other: Self) -> Self {
        MatrixView {
            rows: self.rows,
            cols: self.cols,
            data: Seq::new(
                self.data.len(),
                |k: int| elem_difference(self.data[k], other.data[k]),
            ),
        }
    }

    /// The matrix product: the entry at `(r, c)` is the sum over `k` of
    /// `self[r][k] * other[k][c]`, computed in the integers and reduced once.
    pub open spec fn product(self, other: Self) -> Self {
        Self::from_fn(
            self.rows,
            other.cols,
            |r: int, c: int| reduce::<T>(dot(self, other, r, c, self.cols as int)),
        )
    }
}

} // verus!
