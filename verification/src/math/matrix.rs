//! The matrix container: a row-major buffer with its extents.

use super::entries::{
    lemma_block, lemma_index_of_position, lemma_merged, lemma_padded, lemma_row_start,
    lemma_sum_difference, lemma_transposed, lemma_zeros,
};
use super::laws::lemma_pad_to_own_side;
use super::model::MatrixView;
use super::numeric::{elem_difference, elem_sum, elem_zero, Numeric};
use super::power::is_power_of_two;
use vstd::arithmetic::power2::is_pow2;
use vstd::prelude::*;

verus! {

/// Why an operation on matrices was refused.
#[derive(Clone, Copy, Debug, PartialEq, Eq, Structural)]
pub enum MatrixError {
    /// The extents of the operands do not fit the operation, or a flat sequence has
    /// not one entry for each position.
    DimensionMismatch,
    /// Quadrants to merge are not all square, or not all of one side.
    ShapeMismatch,
}

/// A dense matrix over the element type `T`, stored row by row.
#[derive(Debug)]
pub struct Matrix<T: Numeric> {
    data: Vec<T>,
    rows: usize,
    cols: usize,
}

impl<T: Numeric> View for Matrix<T> {
    type V = MatrixView<T>;

    closed spec fn view(&self) -> MatrixView<T> {
        MatrixView { rows: self.rows as nat, cols: self.cols as nat, data: self.data@ }
    }
}

impl<T: Numeric> Matrix<T> {
    #[verifier::type_invariant]
    spec fn inv(self) -> bool {
        self.data.len() == self.rows * self.cols
    }

    /// A `rows` by `cols` matrix whose every entry is zero.
    pub fn new(rows: usize, cols: usize) -> (m: Matrix<T>)
        requires
            rows * cols <= usize::MAX,
        ensures
            m@ == MatrixView::<T>::zeros(rows as nat, cols as nat),
            m@.wf(),
            m@.rows == rows,
            m@.cols == cols,
            forall|r: int, c: int| m@.has(r, c) ==> #[trigger] m@.at(r, c) == elem_zero::<T>(),
    {
        proof {
            lemma_zeros::<T>(rows as nat, cols as nat);
        }
        let len = rows * cols;
        let mut data: Vec<T> = Vec::with_capacity(len);
        let mut k: usize = 0;
        while k < len
            invariant
                k <= len,
                data.len() == k,
                forall|i: int| 0 <= i < k ==> data[i] == elem_zero::<T>(),
            decreases len - k,
        {
            data.push(T::zero());
            k += 1;
        }
        assert(data@ =~= MatrixView::<T>::zeros(rows as nat, cols as nat).data);
        Matrix { data, rows, cols }
    }

    /// The matrix with the given extents and entries, the entries given row by row.
    ///
    /// Refused with `DimensionMismatch` unless `data` holds exactly `rows * cols` entries.
    pub fn from_vec(rows: usize, cols: usize, data: Vec<T>) -> (res: Result<
        Matrix<T>,
        MatrixError,
    >)
        ensures
            match res {
                Ok(m) => data.len() == rows * cols && m@.wf() && m@ == (MatrixView {
                    rows: rows as nat,
                    cols: cols as nat,
                    data: data@,
                }),
                Err(e) => data.len() != rows * cols && e == MatrixError::DimensionMismatch,
            },
    {
        match rows.checked_mul(cols) {
            Some(len) => {
                if len == data.len() {
                    Ok(Matrix { data, rows, cols })
                } else {
                    Err(MatrixError::DimensionMismatch)
                }
            },
            None => Err(MatrixError::DimensionMismatch),
        }
    }

    /// The number of rows.
    pub fn rows(&self) -> (r: usize)
        ensures
            r == self@.rows,
            self@.wf(),
    {
        proof {
            use_type_invariant(self);
        }
        self.rows
    }

    /// The number of columns.
    pub fn cols(&self) -> (r: usize)
        ensures
            r == self@.cols,
            self@.wf(),
    {
        proof {
            use_type_invariant(self);
        }
        self.cols
    }

    /// The entries, row by row.
    pub fn data(&self) -> (r: &Vec<T>)
        ensures
            r@ == self@.data,
            self@.wf(),
    {
        proof {
            use_type_invariant(self);
        }
        &self.data
    }

    /// Whether the matrix has as many rows as columns.
    pub fn is_square(&self) -> (r: bool)
        ensures
            r == self@.is_square(),
    {
        self.rows == self.cols
    }

    /// The entry at row `row` and column `col`, or `None` where there is no such
    /// position. Reading never fails.
    pub fn get(&self, row: usize, col: usize) -> (r: Option<&T>)
        ensures
            self@.has(row as int, col as int) ==> r == Some(&self@.at(row as int, col as int)),
            !self@.has(row as int, col as int) ==> r.is_none(),
    {
        proof {
            use_type_invariant(self);
        }
        if row < self.rows && col < self.cols {
            proof {
                lemma_index_of_position(row as int, col as int, self.rows as int, self.cols as int);
            }
            return Some(&self.data[row * self.cols + col]);
        }
        None
    }

    /// Writes `value` at row `row` and column `col`. Where there is no such position
    /// nothing is written and nothing is reported: the matrix is left as it was. A
    /// caller for whom a missed write matters tests the position against `rows` and
    /// `cols` first.
    pub fn set(&mut self, row: usize, col: usize, value: T)
        ensures
            old(self)@.has(row as int, col as int) ==> final(self)@ == (MatrixView {
                data: old(self)@.data.update(row * old(self)@.cols + col, value),
                ..old(self)@
            }),
            !old(self)@.has(row as int, col as int) ==> final(self)@ == old(self)@,
            final(self)@.wf(),
    {
        proof {
            use_type_invariant(&*self);
        }
        if row < self.rows && col < self.cols {
            proof {
                lemma_index_of_position(row as int, col as int, self.rows as int, self.cols as int);
            }
            self.data[row * self.cols + col] = value;
        }
    }

    /// Whether the matrix is square with a power of two as its side.
    pub fn is_square_power_of_two(&self) -> (r: bool)
        ensures
            r == (self@.is_square() && is_pow2(self@.rows as int)),
    {
        self.is_square() && is_power_of_two(self.rows)
    }

    /// The transpose: a new matrix with rows and columns exchanged.
    pub fn transpose(&self) -> (res: Matrix<T>)
        ensures
            res@ == self@.transposed(),
            res@.wf(),
            res@.rows == self@.cols,
            res@.cols == self@.rows,
            forall|r: int, c: int| self@.has(r, c) ==> #[trigger] res@.at(c, r) == self@.at(r, c),
    {
        proof {
            use_type_invariant(self);
            lemma_transposed(self@);
        }
        let new_rows = self.cols;
        let new_cols = self.rows;
        assert(new_rows * new_cols == self.rows * self.cols) by (nonlinear_arith)
            requires
                new_rows == self.cols,
                new_cols == self.rows,
        ;
        let mut data: Vec<T> = Vec::with_capacity(self.data.len());
        let mut i: usize = 0;
        while i < new_rows
            invariant
                i <= new_rows,
                new_rows == self.cols,
                new_cols == self.rows,
                self.data.len() == self.rows * self.cols,
                data.len() == i * new_cols,
                forall|k: int|
                    0 <= k < data.len() ==> data[k] == self@.at(
                        k % new_cols as int,
                        k / new_cols as int,
                    ),
            decreases new_rows - i,
        {
            let mut j: usize = 0;
            while j < new_cols
                invariant
                    i < new_rows,
                    j <= new_cols,
                    new_rows == self.cols,
                    new_cols == self.rows,
                    self.data.len() == self.rows * self.cols,
                    data.len() == i * new_cols + j,
                    forall|k: int|
                        0 <= k < data.len() ==> data[k] == self@.at(
                            k % new_cols as int,
                            k / new_cols as int,
                        ),
                decreases new_cols - j,
            {
                proof {
                    lemma_index_of_position(i as int, j as int, new_rows as int, new_cols as int);
                    lemma_index_of_position(j as int, i as int, self.rows as int, self.cols as int);
                }
                data.push(self.data[j * self.cols + i]);
                j += 1;
            }
            proof {
                lemma_row_start(i as int, new_cols as int);
            }
            i += 1;
        }
        assert(data@ =~= self@.transposed().data);
        Matrix { data, rows: new_rows, cols: new_cols }
    }

    /// The block of the given extents whose top-left entry stands at `(row0, col0)`.
    pub(crate) fn block(&self, row0: usize, col0: usize, rows: usize, cols: usize) -> (res: Matrix<
        T,
    >)
        requires
            row0 + rows <= self@.rows,
            col0 + cols <= self@.cols,
        ensures
            res@ == self@.block(row0 as int, col0 as int, rows as nat, cols as nat),
            res@.wf(),
    {
        proof {
            use_type_invariant(self);
            assert(rows * cols <= self.rows * self.cols) by (nonlinear_arith)
                requires
                    rows <= self.rows,
                    cols <= self.cols,
            ;
        }
        let mut data: Vec<T> = Vec::with_capacity(rows * cols);
        let mut i: usize = 0;
        while i < rows
            invariant
                i <= rows,
                row0 + rows <= self.rows,
                col0 + cols <= self.cols,
                self.data.len() == self.rows * self.cols,
                data.len() == i * cols,
                forall|k: int|
                    0 <= k < data.len() ==> data[k] == self@.at(
                        row0 + k / cols as int,
                        col0 + k % cols as int,
                    ),
            decreases rows - i,
        {
            let mut j: usize = 0;
            while j < cols
                invariant
                    i < rows,
                    j <= cols,
                    row0 + rows <= self.rows,
                    col0 + cols <= self.cols,
                    self.data.len() == self.rows * self.cols,
                    data.len() == i * cols + j,
                    forall|k: int|
                        0 <= k < data.len() ==> data[k] == self@.at(
                            row0 + k / cols as int,
                            col0 + k % cols as int,
                        ),
                decreases cols - j,
            {
                proof {
                    lemma_index_of_position(i as int, j as int, rows as int, cols as int);
                    lemma_index_of_position(
                        row0 + i,
                        col0 + j,
                        self.rows as int,
                        self.cols as int,
                    );
                }
                data.push(self.data[(row0 + i) * self.cols + (col0 + j)]);
                j += 1;
            }
            proof {
                lemma_row_start(i as int, cols as int);
            }
            i += 1;
        }
        assert(data@ =~= self@.block(row0 as int, col0 as int, rows as nat, cols as nat).data);
        Matrix { data, rows, cols }
    }

    /// The entry at `(r, c)` of a padded matrix.
    spec fn padded_entry(m: MatrixView<T>, r: int, c: int) -> T {
        if r < m.rows && c < m.cols {
            m.at(r, c)
        } else {
            elem_zero::<T>()
        }
    }

    /// The `size` by `size` matrix that holds this one in its top-left corner and zero
    /// elsewhere; a copy of this matrix where it is `size` by `size` already.
    pub fn pad_to_size(&self, size: usize) -> (res: Matrix<T>)
        requires
            size >= self@.rows,
            size >= self@.cols,
            size * size <= usize::MAX,
        ensures
            res@ == self@.padded(size as nat),
            res@.wf(),
            res@.rows == size,
            res@.cols == size,
            forall|r: int, c: int|
                res@.has(r, c) ==> #[trigger] res@.at(r, c) == (if self@.has(r, c) {
                    self@.at(r, c)
                } else {
                    elem_zero::<T>()
                }),
            self@.rows == size && self@.cols == size ==> res@ == self@,
    {
        proof {
            use_type_invariant(self);
            lemma_padded(self@, size as nat);
        }
        if self.rows == size && self.cols == size {
            proof {
                lemma_pad_to_own_side(self@, size as nat);
            }
            return self.clone();
        }
        let mut data: Vec<T> = Vec::with_capacity(size * size);
        let mut i: usize = 0;
        while i < size
            invariant
                i <= size,
                size >= self.rows,
                size >= self.cols,
                size * size <= usize::MAX,
                self.data.len() == self.rows * self.cols,
                data.len() == i * size,
                forall|k: int|
                    0 <= k < data.len() ==> data[k] == Self::padded_entry(
                        self@,
                        k / size as int,
                        k % size as int,
                    ),
            decreases size - i,
        {
            let mut j: usize = 0;
            while j < size
                invariant
                    i < size,
                    j <= size,
                    size >= self.rows,
                    size >= self.cols,
                    size * size <= usize::MAX,
                    self.data.len() == self.rows * self.cols,
                    data.len() == i * size + j,
                    forall|k: int|
                        0 <= k < data.len() ==> data[k] == Self::padded_entry(
                            self@,
                            k / size as int,
                            k % size as int,
                        ),
                decreases size - j,
            {
                proof {
                    lemma_index_of_position(i as int, j as int, size as int, size as int);
                }
                if i < self.rows && j < self.cols {
                    proof {
                        lemma_index_of_position(
                            i as int,
                            j as int,
                            self.rows as int,
                            self.cols as int,
                        );
                    }
                    data.push(self.data[i * self.cols + j]);
                } else {
                    data.push(T::zero());
                }
                j += 1;
            }
            proof {
                lemma_row_start(i as int, size as int);
            }
            i += 1;
        }
        assert(data@ =~= self@.padded(size as nat).data);
        Matrix { data, rows: size, cols: size }
    }

    /// The four quadrants of a square matrix whose side is a power of two: top-left,
    /// top-right, bottom-left, bottom-right.
    pub fn quarters(&self) -> (q: (Matrix<T>, Matrix<T>, Matrix<T>, Matrix<T>))
        requires
            self@.is_square(),
            is_pow2(self@.rows as int),
        ensures
            q.0@ == self@.quarter(0, 0),
            q.1@ == self@.quarter(0, 1),
            q.2@ == self@.quarter(1, 0),
            q.3@ == self@.quarter(1, 1),
            q.0@.wf() && q.1@.wf() && q.2@.wf() && q.3@.wf(),
            q.0@.rows == self@.rows / 2 && q.0@.cols == self@.rows / 2,
            q.1@.rows == self@.rows / 2 && q.1@.cols == self@.rows / 2,
            q.2@.rows == self@.rows / 2 && q.2@.cols == self@.rows / 2,
            q.3@.rows == self@.rows / 2 && q.3@.cols == self@.rows / 2,
            forall|r: int, c: int|
                0 <= r < self@.rows / 2 && 0 <= c < self@.rows / 2 ==> {
                    &&& #[trigger] q.0@.at(r, c) == self@.at(r, c)
                    &&& #[trigger] q.1@.at(r, c) == self@.at(r, self@.rows / 2 + c)
                    &&& #[trigger] q.2@.at(r, c) == self@.at(self@.rows / 2 + r, c)
                    &&& #[trigger] q.3@.at(r, c) == self@.at(
                        self@.rows / 2 + r,
                        self@.rows / 2 + c,
                    )
                },
    {
        proof {
            use_type_invariant(self);
            lemma_block(self@, 0, 0, self@.rows / 2, self@.cols / 2);
            lemma_block(self@, 0, (self@.cols / 2) as int, self@.rows / 2, self@.cols / 2);
            lemma_block(self@, (self@.rows / 2) as int, 0, self@.rows / 2, self@.cols / 2);
            lemma_block(
                self@,
                (self@.rows / 2) as int,
                (self@.cols / 2) as int,
                self@.rows / 2,
                self@.cols / 2,
            );
        }
        let q_rows = self.rows / 2;
        let q_cols = self.cols / 2;
        let q1 = self.block(0, 0, q_rows, q_cols);
        let q2 = self.block(0, q_cols, q_rows, q_cols);
        let q3 = self.block(q_rows, 0, q_rows, q_cols);
        let q4 = self.block(q_rows, q_cols, q_rows, q_cols);
        (q1, q2, q3, q4)
    }

    /// The matrix with `q1` top-left, `q2` top-right, `q3` bottom-left and `q4`
    /// bottom-right.
    ///
    /// Refused with `ShapeMismatch` unless the four quadrants are square and of one side.
    pub fn from_quarters(q1: Matrix<T>, q2: Matrix<T>, q3: Matrix<T>, q4: Matrix<T>) -> (res:
        Result<Matrix<T>, MatrixError>)
        requires
            Self::quarters_fit(q1@, q2@, q3@, q4@) ==> 4 * q1@.rows * q1@.rows <= usize::MAX,
        ensures
            match res {
                Ok(m) => {
                    &&& Self::quarters_fit(q1@, q2@, q3@, q4@)
                    &&& m@.wf()
                    &&& m@ == MatrixView::merged(q1@, q2@, q3@, q4@)
                    &&& m@.rows == 2 * q1@.rows
                    &&& m@.cols == 2 * q1@.rows
                    &&& forall|r: int, c: int|
                        m@.has(r, c) ==> #[trigger] m@.at(r, c) == Self::merged_entry(
                            q1@,
                            q2@,
                            q3@,
                            q4@,
                            r,
                            c,
                        )
                },
                Err(e) => !Self::quarters_fit(q1@, q2@, q3@, q4@) && e
                    == MatrixError::ShapeMismatch,
            },
    {
        proof {
            lemma_merged(q1@, q2@, q3@, q4@);
            use_type_invariant(&q1);
            use_type_invariant(&q2);
            use_type_invariant(&q3);
            use_type_invariant(&q4);
        }
        if !(q1.is_square() && q2.is_square() && q3.is_square() && q4.is_square() && q1.rows
            == q2.rows && q2.cols == q3.cols && q3.rows == q4.rows) {
            return Err(MatrixError::ShapeMismatch);
        }
        let side = q1.rows;
        assert(2 * side * (2 * side) == 4 * side * side) by (nonlinear_arith);
        assert(2 * side <= 4 * side * side) by (nonlinear_arith);
        let size = 2 * side;
        let mut data: Vec<T> = Vec::with_capacity(size * size);
        let mut i: usize = 0;
        while i < size
            invariant
                i <= size,
                size == 2 * side,
                size * size <= usize::MAX,
                q1.rows == side && q1.cols == side && q1.data.len() == side * side,
                q2.rows == side && q2.cols == side && q2.data.len() == side * side,
                q3.rows == side && q3.cols == side && q3.data.len() == side * side,
                q4.rows == side && q4.cols == side && q4.data.len() == side * side,
                data.len() == i * size,
                forall|k: int|
                    0 <= k < data.len() ==> data[k] == Self::merged_entry(
                        q1@,
                        q2@,
                        q3@,
                        q4@,
                        k / size as int,
                        k % size as int,
                    ),
            decreases size - i,
        {
            let mut j: usize = 0;
            while j < size
                invariant
                    i < size,
                    j <= size,
                    size == 2 * side,
                    size * size <= usize::MAX,
                    q1.rows == side && q1.cols == side && q1.data.len() == side * side,
                    q2.rows == side && q2.cols == side && q2.data.len() == side * side,
                    q3.rows == side && q3.cols == side && q3.data.len() == side * side,
                    q4.rows == side && q4.cols == side && q4.data.len() == side * side,
                    data.len() == i * size + j,
                    forall|k: int|
                        0 <= k < data.len() ==> data[k] == Self::merged_entry(
                            q1@,
                            q2@,
                            q3@,
                            q4@,
                            k / size as int,
                            k % size as int,
                        ),
                decreases size - j,
            {
                proof {
                    lemma_index_of_position(i as int, j as int, size as int, size as int);
                }
                let value = if i < side {
                    if j < side {
                        proof {
                            lemma_index_of_position(i as int, j as int, side as int, side as int);
                        }
                        q1.data[i * side + j]
                    } else {
                        proof {
                            lemma_index_of_position(
                                i as int,
                                j - side,
                                side as int,
                                side as int,
                            );
                        }
                        q2.data[i * side + (j - side)]
                    }
                } else {
                    if j < side {
                        proof {
                            lemma_index_of_position(
                                i - side,
                                j as int,
                                side as int,
                                side as int,
                            );
                        }
                        q3.data[(i - side) * side + j]
                    } else {
                        proof {
                            lemma_index_of_position(
                                i - side,
                                j - side,
                                side as int,
                                side as int,
                            );
                        }
                        q4.data[(i - side) * side + (j - side)]
                    }
                };
                data.push(value);
                j += 1;
            }
            proof {
                lemma_row_start(i as int, size as int);
            }
            i += 1;
        }
        assert(data@ =~= MatrixView::merged(q1@, q2@, q3@, q4@).data);
        Ok(Matrix { data, rows: size, cols: size })
    }

    /// Four quadrants can be merged: each is square, and all have one side.
    pub open spec fn quarters_fit(
        q1: MatrixView<T>,
        q2: MatrixView<T>,
        q3: MatrixView<T>,
        q4: MatrixView<T>,
    ) -> bool {
        &&& q1.is_square() && q2.is_square() && q3.is_square() && q4.is_square()
        &&& q1.rows == q2.rows && q2.rows == q3.rows && q3.rows == q4.rows
    }

    /// The entry at `(r, c)` of the matrix merged from four quadrants of one side: the
    /// entry of the quadrant that covers the position.
    pub open spec fn merged_entry(
        q1: MatrixView<T>,
        q2: MatrixView<T>,
        q3: MatrixView<T>,
        q4: MatrixView<T>,
        r: int,
        c: int,
    ) -> T {
        let s = q1.rows as int;
        if r < s {
            if c < s {
                q1.at(r, c)
            } else {
                q2.at(r, c - s)
            }
        } else {
            if c < s {
                q3.at(r - s, c)
            } else {
                q4.at(r - s, c - s)
            }
        }
    }

    /// Entry by entry sum of two matrices of the same extents.
    pub(crate) fn sum_with(&self, other: &Matrix<T>) -> (res: Matrix<T>)
        requires
            self@.rows == other@.rows,
            self@.cols == other@.cols,
        ensures
            res@ == self@.sum(other@),
            res@.wf(),
    {
        proof {
            use_type_invariant(self);
            use_type_invariant(other);
        }
        let len = self.data.len();
        let mut data: Vec<T> = Vec::with_capacity(len);
        let mut k: usize = 0;
        while k < len
            invariant
                k <= len,
                len == self.data.len(),
                len == other.data.len(),
                data.len() == k,
                forall|i: int| 0 <= i < k ==> data[i] == elem_sum(self.data[i], other.data[i]),
            decreases len - k,
        {
            data.push(self.data[k].plus(other.data[k]));
            k += 1;
        }
        assert(data@ =~= self@.sum(other@).data);
        Matrix { data, rows: self.rows, cols: self.cols }
    }

    /// Entry by entry difference of two matrices of the same extents.
    pub(crate) fn difference_with(&self, other: &Matrix<T>) -> (res: Matrix<T>)
        requires
            self@.rows == other@.rows,
            self@.cols == other@.cols,
        ensures
            res@ == self@.difference(other@),
            res@.wf(),
    {
        proof {
            use_type_invariant(self);
            use_type_invariant(other);
        }
        let len = self.data.len();
        let mut data: Vec<T> = Vec::with_capacity(len);
        let mut k: usize = 0;
        while k < len
            invariant
                k <= len,
                len == self.data.len(),
                len == other.data.len(),
                data.len() == k,
                forall|i: int|
                    0 <= i < k ==> data[i] == elem_difference(self.data[i], other.data[i]),
            decreases len - k,
        {
            data.push(self.data[k].minus(other.data[k]));
            k += 1;
        }
        assert(data@ =~= self@.difference(other@).data);
        Matrix { data, rows: self.rows, cols: self.cols }
    }

    /// The sum of two matrices, entry by entry.
    ///
    /// Refused with `DimensionMismatch` unless both have the same extents.
    pub fn add(self, rhs: Matrix<T>) -> (res: Result<Matrix<T>, MatrixError>)
        ensures
            match res {
                Ok(m) => {
                    &&& self@.rows == rhs@.rows && self@.cols == rhs@.cols
                    &&& m@.wf()
                    &&& m@ == self@.sum(rhs@)
                    &&& m@.rows == self@.rows && m@.cols == self@.cols
                    &&& forall|r: int, c: int|
                        self@.has(r, c) ==> #[trigger] m@.at(r, c) == elem_sum(
                            self@.at(r, c),
                            rhs@.at(r, c),
                        )
                },
                Err(e) => !(self@.rows == rhs@.rows && self@.cols == rhs@.cols) && e
                    == MatrixError::DimensionMismatch,
            },
    {
        if self.rows != rhs.rows || self.cols != rhs.cols {
            return Err(MatrixError::DimensionMismatch);
        }
        proof {
            use_type_invariant(&self);
            use_type_invariant(&rhs);
            lemma_sum_difference(self@, rhs@);
        }
        Ok(self.sum_with(&rhs))
    }

    /// The difference of two matrices, entry by entry.
    ///
    /// Refused with `DimensionMismatch` unless both have the same extents.
    pub fn sub(self, rhs: Matrix<T>) -> (res: Result<Matrix<T>, MatrixError>)
        ensures
            match res {
                Ok(m) => {
                    &&& self@.rows == rhs@.rows && self@.cols == rhs@.cols
                    &&& m@.wf()
                    &&& m@ == self@.difference(rhs@)
                    &&& m@.rows == self@.rows && m@.cols == self@.cols
                    &&& forall|r: int, c: int|
                        self@.has(r, c) ==> #[trigger] m@.at(r, c) == elem_difference(
                            self@.at(r, c),
                            rhs@.at(r, c),
                        )
                },
                Err(e) => !(self@.rows == rhs@.rows && self@.cols == rhs@.cols) && e
                    == MatrixError::DimensionMismatch,
            },
    {
        if self.rows != rhs.rows || self.cols != rhs.cols {
            return Err(MatrixError::DimensionMismatch);
        }
        proof {
            use_type_invariant(&self);
            use_type_invariant(&rhs);
            lemma_sum_difference(self@, rhs@);
        }
        Ok(self.difference_with(&rhs))
    }
}

impl<T: Numeric> Clone for Matrix<T> {
    /// A copy with the same extents and entries.
    fn clone(&self) -> (res: Self)
        ensures
            res@ == self@,
            res@.wf(),
    {
        proof {
            use_type_invariant(self);
        }
        let len = self.data.len();
        let mut data: Vec<T> = Vec::with_capacity(len);
        let mut k: usize = 0;
        while k < len
            invariant
                k <= len,
                len == self.data.len(),
                data.len() == k,
                forall|i: int| 0 <= i < k ==> data[i] == self.data[i],
            decreases len - k,
        {
            data.push(self.data[k]);
            k += 1;
        }
        assert(data@ =~= self.data@);
        Matrix { data, rows: self.rows, cols: self.cols }
    }
}

} // verus!
