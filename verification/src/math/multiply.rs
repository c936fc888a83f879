//! The three ways to a product: direct, divide and conquer, and the dispatcher that
//! chooses between them.

use super::entries::{lemma_index_of_position, lemma_padded, lemma_product, lemma_quarter};
use super::matrix::{Matrix, MatrixError};
use super::model::{dot, MatrixView};
use super::numeric::{elem_product, elem_zero, reduce, Numeric};
use super::power::{
    lemma_next_pow2, lemma_next_pow2_fixed, lemma_next_pow2_least, lemma_pow2_half,
    lemma_pow2_positive, next_pow2, next_power_of_two,
};
use super::product::{
    accumulated, lemma_accumulated_end, lemma_accumulated_next_row, lemma_accumulated_next_term,
    lemma_accumulated_start, lemma_accumulated_step,
};
use super::strassen::{lemma_strassen_is_product, strassen_product, strassen_size_fits};
use vstd::arithmetic::power2::is_pow2;
use vstd::prelude::*;

verus! {

/// The largest side for which the dispatcher still multiplies directly. Above it the
/// divide-and-conquer engine takes over, whose padding and recursion only pay off on
/// large operands. The value is a tuning choice, not a law.
pub const STRASSEN_THRESHOLD: usize = 256;

/// The largest of the four extents of two operands.
pub open spec fn largest_extent<T: Numeric>(a: MatrixView<T>, b: MatrixView<T>) -> nat {
    let left = if a.rows >= a.cols {
        a.rows
    } else {
        a.cols
    };
    let right = if b.rows >= b.cols {
        b.rows
    } else {
        b.cols
    };
    if left >= right {
        left
    } else {
        right
    }
}

/// The side that the dispatcher works with: the largest extent, rounded up to a power
/// of two.
pub open spec fn dispatch_size<T: Numeric>(a: MatrixView<T>, b: MatrixView<T>) -> int {
    next_pow2(largest_extent(a, b) as int)
}

/// What the dispatcher computes: the direct product where the side is at most
/// `STRASSEN_THRESHOLD`, and the value of the divide-and-conquer engine on that side
/// above it.
pub open spec fn dispatched_product<T: Numeric>(a: MatrixView<T>, b: MatrixView<T>) -> MatrixView<
    T,
> {
    if dispatch_size(a, b) <= STRASSEN_THRESHOLD {
        a.product(b)
    } else {
        strassen_product(a, b, dispatch_size(a, b) as nat)
    }
}

/// The larger of two extents.
fn larger(a: usize, b: usize) -> (r: usize)
    ensures
        r == if a >= b {
            a
        } else {
            b
        },
{
    if a >= b {
        a
    } else {
        b
    }
}

impl<T: Numeric> Matrix<T> {
    /// The product by the direct method: for each row of `self`, each term and each
    /// column of `rhs`, one product accumulated into the entry it belongs to.
    ///
    /// Refused with `DimensionMismatch` unless `self` has as many columns as `rhs` has
    /// rows.
    pub fn gemm(&self, rhs: Matrix<T>) -> (res: Result<Matrix<T>, MatrixError>)
        requires
            self@.cols == rhs@.rows ==> self@.rows * rhs@.cols <= usize::MAX,
        ensures
            match res {
                Ok(m) => {
                    &&& self@.cols == rhs@.rows
                    &&& m@.wf()
                    &&& m@ == self@.product(rhs@)
                    &&& m@.rows == self@.rows
                    &&& m@.cols == rhs@.cols
                    &&& forall|r: int, c: int|
                        m@.has(r, c) ==> #[trigger] m@.at(r, c) == reduce::<T>(
                            dot(self@, rhs@, r, c, self@.cols as int),
                        )
                },
                Err(e) => self@.cols != rhs@.rows && e == MatrixError::DimensionMismatch,
            },
    {
        if self.cols() != rhs.rows() {
            return Err(MatrixError::DimensionMismatch);
        }
        proof {
            lemma_product(self@, rhs@);
        }
        let rows = self.rows();
        let terms = self.cols();
        let cols = rhs.cols();
        let a = self.data();
        let b = rhs.data();
        let len = rows * cols;
        let mut data: Vec<T> = Vec::with_capacity(len);
        let mut n: usize = 0;
        while n < len
            invariant
                n <= len,
                data.len() == n,
                forall|idx: int| 0 <= idx < n ==> data[idx] == elem_zero::<T>(),
            decreases len - n,
        {
            data.push(T::zero());
            n += 1;
        }
        proof {
            lemma_accumulated_start(data@, self@, rhs@);
        }
        let mut i: usize = 0;
        while i < rows
            invariant
                i <= rows,
                rows == self@.rows,
                terms == self@.cols,
                terms == rhs@.rows,
                cols == rhs@.cols,
                self@.wf(),
                rhs@.wf(),
                a@ == self@.data,
                b@ == rhs@.data,
                a.len() == rows * terms,
                b.len() == terms * cols,
                data.len() == rows * cols,
                accumulated(data@, self@, rhs@, i as int, 0, 0),
            decreases rows - i,
        {
            let mut k: usize = 0;
            while k < terms
                invariant
                    i < rows,
                    k <= terms,
                    rows == self@.rows,
                    terms == self@.cols,
                    terms == rhs@.rows,
                    cols == rhs@.cols,
                    self@.wf(),
                    rhs@.wf(),
                    a@ == self@.data,
                    b@ == rhs@.data,
                    a.len() == rows * terms,
                    b.len() == terms * cols,
                    data.len() == rows * cols,
                    accumulated(data@, self@, rhs@, i as int, k as int, 0),
                decreases terms - k,
            {
                let mut j: usize = 0;
                while j < cols
                    invariant
                        i < rows,
                        k < terms,
                        j <= cols,
                        rows == self@.rows,
                        terms == self@.cols,
                        terms == rhs@.rows,
                        cols == rhs@.cols,
                        self@.wf(),
                        rhs@.wf(),
                        a@ == self@.data,
                        b@ == rhs@.data,
                        a.len() == rows * terms,
                        b.len() == terms * cols,
                        data.len() == rows * cols,
                        accumulated(data@, self@, rhs@, i as int, k as int, j as int),
                    decreases cols - j,
                {
                    proof {
                        lemma_index_of_position(i as int, k as int, rows as int, terms as int);
                        lemma_index_of_position(k as int, j as int, terms as int, cols as int);
                        lemma_index_of_position(i as int, j as int, rows as int, cols as int);
                        lemma_accumulated_step(data@, self@, rhs@, i as int, k as int, j as int);
                    }
                    let aik = a[i * terms + k];
                    let bkj = b[k * cols + j];
                    let mut entry = data[i * cols + j];
                    entry.accumulate(aik.times(bkj));
                    data[i * cols + j] = entry;
                    j += 1;
                }
                proof {
                    lemma_accumulated_next_term(data@, self@, rhs@, i as int, k as int);
                }
                k += 1;
            }
            proof {
                lemma_accumulated_next_row(data@, self@, rhs@, i as int);
            }
            i += 1;
        }
        proof {
            lemma_accumulated_end(data@, self@, rhs@);
        }
        let res = Matrix::from_vec(rows, cols, data);
        Ok(res.unwrap())
    }

    /// The product by divide and conquer on operands padded to `size` by `size`.
    ///
    /// For `size == 1` the result is the 1 by 1 product of the two padded scalars.
    /// Otherwise both padded operands are split into quadrants, seven products of
    /// sums and differences of quadrants are taken through `multiply`, the four
    /// quadrants of the result are combined from them and merged, and the whole is
    /// cropped to the rows of `self` and the columns of `rhs`. The result is the
    /// product of the operands, but for `size == 1` on operands whose product has no
    /// entry.
    ///
    /// `size` is a power of two that is no less than any extent of the operands.
    ///
    /// Refused with `DimensionMismatch` unless `self` has as many columns as `rhs` has
    /// rows.
    pub fn strassen(&self, rhs: Matrix<T>, size: usize) -> (res: Result<Matrix<T>, MatrixError>)
        requires
            strassen_size_fits(self@, rhs@, size as nat),
            size * size <= usize::MAX,
        ensures
            match res {
                Ok(m) => {
                    &&& self@.cols == rhs@.rows
                    &&& m@.wf()
                    &&& m@ == strassen_product(self@, rhs@, size as nat)
                    &&& (size > 1 || (self@.rows == 1 && rhs@.cols == 1)) ==> m@
                        == self@.product(rhs@)
                },
                Err(e) => self@.cols != rhs@.rows && e == MatrixError::DimensionMismatch,
            },
        decreases size, 0int,
    {
        if self.cols() != rhs.rows() {
            return Err(MatrixError::DimensionMismatch);
        }
        let rows = self.rows();
        let cols = rhs.cols();
        proof {
            lemma_pow2_positive(size as int);
            if size > 1 || (self@.rows == 1 && rhs@.cols == 1) {
                lemma_strassen_is_product(self@, rhs@, size as nat);
            }
        }
        let pad_self = self.pad_to_size(size);
        let pad_rhs = rhs.pad_to_size(size);
        if size == 1 {
            let x = *pad_self.get(0, 0).unwrap();
            let y = *pad_rhs.get(0, 0).unwrap();
            let mut entry: Vec<T> = Vec::with_capacity(1);
            entry.push(x.times(y));
            assert(entry@ =~= seq![elem_product(x, y)]);
            assert(entry.len() == 1 * 1);
            let res = Matrix::from_vec(1, 1, entry);
            return Ok(res.unwrap());
        }
        proof {
            lemma_pow2_half(size as int);
            lemma_next_pow2_fixed(size as int / 2);
            assert((size / 2) * (size / 2) <= size * size) by (nonlinear_arith);
            assert(4 * (size / 2) * (size / 2) == size * size) by (nonlinear_arith)
                requires
                    size % 2 == 0,
            ;
        }
        let (a11, a12, a21, a22) = pad_self.quarters();
        let (b11, b12, b21, b22) = pad_rhs.quarters();
        proof {
            lemma_padded(self@, size as nat);
            lemma_padded(rhs@, size as nat);
            lemma_quarter(pad_self@, 0, 0);
            lemma_quarter(pad_self@, 0, 1);
            lemma_quarter(pad_self@, 1, 0);
            lemma_quarter(pad_self@, 1, 1);
            lemma_quarter(pad_rhs@, 0, 0);
            lemma_quarter(pad_rhs@, 0, 1);
            lemma_quarter(pad_rhs@, 1, 0);
            lemma_quarter(pad_rhs@, 1, 1);
        }
        let m1 = a11.sum_with(&a22).multiply(b11.sum_with(&b22)).unwrap();
        let m2 = a21.sum_with(&a22).multiply(b11.clone()).unwrap();
        let m3 = a11.clone().multiply(b12.difference_with(&b22)).unwrap();
        let m4 = a22.clone().multiply(b21.difference_with(&b11)).unwrap();
        let m5 = a11.sum_with(&a12).multiply(b22.clone()).unwrap();
        let m6 = a21.difference_with(&a11).multiply(b11.sum_with(&b12)).unwrap();
        let m7 = a12.difference_with(&a22).multiply(b21.sum_with(&b22)).unwrap();
        let c11 = m1.sum_with(&m4).difference_with(&m5).sum_with(&m7);
        let c12 = m3.sum_with(&m5);
        let c21 = m2.sum_with(&m4);
        let c22 = m1.difference_with(&m2).sum_with(&m3).sum_with(&m6);
        let whole = Matrix::from_quarters(c11, c12, c21, c22).unwrap();
        Ok(whole.block(0, 0, rows, cols))
    }

    /// The product, by the strategy that fits the operands: the largest of the four
    /// extents is rounded up to a power of two; up to `STRASSEN_THRESHOLD` the operands
    /// are multiplied directly as they are, above it by divide and conquer on that side.
    ///
    /// Refused with `DimensionMismatch` unless `self` has as many columns as `rhs` has
    /// rows.
    pub fn multiply(self, rhs: Matrix<T>) -> (res: Result<Matrix<T>, MatrixError>)
        requires
            self@.cols == rhs@.rows && largest_extent(self@, rhs@) > STRASSEN_THRESHOLD
                ==> dispatch_size(self@, rhs@) * dispatch_size(self@, rhs@) <= usize::MAX,
        ensures
            match res {
                Ok(m) => {
                    &&& self@.cols == rhs@.rows
                    &&& m@.wf()
                    &&& m@ == dispatched_product(self@, rhs@)
                    &&& m@ == self@.product(rhs@)
                    &&& m@.rows == self@.rows
                    &&& m@.cols == rhs@.cols
                    &&& forall|r: int, c: int|
                        m@.has(r, c) ==> #[trigger] m@.at(r, c) == reduce::<T>(
                            dot(self@, rhs@, r, c, self@.cols as int),
                        )
                },
                Err(e) => self@.cols != rhs@.rows && e == MatrixError::DimensionMismatch,
            },
        decreases dispatch_size(self@, rhs@), 1int,
    {
        if self.cols() != rhs.rows() {
            return Err(MatrixError::DimensionMismatch);
        }
        proof {
            lemma_product(self@, rhs@);
        }
        let largest = larger(larger(self.rows(), self.cols()), larger(rhs.rows(), rhs.cols()));
        proof {
            lemma_next_pow2(largest as int);
            let size = next_pow2(largest as int);
            if largest <= STRASSEN_THRESHOLD {
                assert(is_pow2(STRASSEN_THRESHOLD as int)) by {
                    reveal_with_fuel(is_pow2, 10);
                }
                lemma_next_pow2_least(largest as int, STRASSEN_THRESHOLD as int);
            } else {
                assert(size <= size * size) by (nonlinear_arith)
                    requires
                        size >= 1,
                ;
            }
        }
        let size = next_power_of_two(largest);
        if size <= STRASSEN_THRESHOLD {
            assert(self@.rows * rhs@.cols <= 65536) by (nonlinear_arith)
                requires
                    self@.rows <= 256,
                    rhs@.cols <= 256,
            ;
            self.gemm(rhs)
        } else {
            self.strassen(rhs, size)
        }
    }
}

} // verus!
