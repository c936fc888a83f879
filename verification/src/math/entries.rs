//! The entries of the matrices that the model builds, position by position.

use super::model::{dot, MatrixView};
use super::numeric::{elem_difference, elem_sum, elem_zero, reduce, Numeric};
use vstd::arithmetic::div_mod::{
    lemma_fundamental_div_mod, lemma_fundamental_div_mod_converse, lemma_mod_bound,
};
use vstd::prelude::*;

verus! {

/// A position of a `rows` by `cols` matrix has its index within the data, and the index
/// gives the position back.
pub proof fn lemma_index_of_position(r: int, c: int, rows: int, cols: int)
    requires
        0 <= r < rows,
        0 <= c < cols,
    ensures
        0 <= r * cols + c < rows * cols,
        (r * cols + c) / cols == r,
        (r * cols + c) % cols == c,
{
    assert(r * cols + c < rows * cols) by (nonlinear_arith)
        requires
            0 <= r < rows,
            0 <= c < cols,
    {
        assert((r + 1) * cols <= rows * cols);
    }
    assert(0 <= r * cols) by (nonlinear_arith)
        requires
            0 <= r,
            0 < cols,
    ;
    lemma_fundamental_div_mod_converse(r * cols + c, cols, r, c);
}

/// The index at which row `i + 1` starts.
pub proof fn lemma_row_start(i: int, cols: int)
    ensures
        (i + 1) * cols == i * cols + cols,
{
    assert((i + 1) * cols == i * cols + cols) by (nonlinear_arith);
}

/// An index within the data of a `rows` by `cols` matrix is the index of a position.
pub proof fn lemma_position_of_index(k: int, rows: int, cols: int)
    requires
        0 <= rows,
        0 <= cols,
        0 <= k < rows * cols,
    ensures
        0 <= k / cols < rows,
        0 <= k % cols < cols,
        (k / cols) * cols + k % cols == k,
{
    assert(cols > 0) by (nonlinear_arith)
        requires
            0 <= cols,
            0 <= rows,
            0 < rows * cols,
    ;
    lemma_fundamental_div_mod(k, cols);
    lemma_mod_bound(k, cols);
    let q = k / cols;
    assert(cols * q == q * cols) by (nonlinear_arith);
    assert(0 <= q < rows) by (nonlinear_arith)
        requires
            cols > 0,
            0 <= k < rows * cols,
            k == q * cols + k % cols,
            0 <= k % cols < cols,
    ;
}

/// `from_fn` is well formed and holds `f(r, c)` at each position.
pub proof fn lemma_from_fn<T: Numeric>(rows: nat, cols: nat, f: spec_fn(int, int) -> T)
    ensures
        MatrixView::from_fn(rows, cols, f).wf(),
        MatrixView::from_fn(rows, cols, f).rows == rows,
        MatrixView::from_fn(rows, cols, f).cols == cols,
        forall|r: int, c: int|
            0 <= r < rows && 0 <= c < cols ==> #[trigger] MatrixView::from_fn(rows, cols, f).at(
                r,
                c,
            ) == f(r, c),
{
    let m = MatrixView::from_fn(rows, cols, f);
    assert forall|r: int, c: int| 0 <= r < rows && 0 <= c < cols implies #[trigger] m.at(r, c)
        == f(r, c) by {
        lemma_index_of_position(r, c, rows as int, cols as int);
    }
}

/// Two well-formed matrices of the same extents with the same entry at each position
/// are equal.
pub proof fn lemma_equal_by_entries<T: Numeric>(a: MatrixView<T>, b: MatrixView<T>)
    requires
        a.wf(),
        b.wf(),
        a.rows == b.rows,
        a.cols == b.cols,
        forall|r: int, c: int| a.has(r, c) ==> #[trigger] a.at(r, c) == b.at(r, c),
    ensures
        a == b,
{
    assert forall|k: int| 0 <= k < a.data.len() implies a.data[k] == b.data[k] by {
        lemma_position_of_index(k, a.rows as int, a.cols as int);
        let r = k / a.cols as int;
        let c = k % a.cols as int;
        assert(a.has(r, c));
        assert(a.at(r, c) == b.at(r, c));
    }
    assert(a.data =~= b.data);
}

/// The zero matrix is well formed and holds zero at each position.
pub proof fn lemma_zeros<T: Numeric>(rows: nat, cols: nat)
    ensures
        MatrixView::<T>::zeros(rows, cols).wf(),
        MatrixView::<T>::zeros(rows, cols).rows == rows,
        MatrixView::<T>::zeros(rows, cols).cols == cols,
        forall|r: int, c: int|
            0 <= r < rows && 0 <= c < cols ==> #[trigger] MatrixView::<T>::zeros(rows, cols).at(
                r,
                c,
            ) == elem_zero::<T>(),
{
    lemma_from_fn(rows, cols, |r: int, c: int| elem_zero::<T>());
}

/// The transpose is well formed, has the extents exchanged, and holds at `(r, c)` the
/// entry of the matrix at `(c, r)`.
pub proof fn lemma_transposed<T: Numeric>(m: MatrixView<T>)
    ensures
        m.transposed().wf(),
        m.transposed().rows == m.cols,
        m.transposed().cols == m.rows,
        forall|r: int, c: int|
            0 <= r < m.cols && 0 <= c < m.rows ==> #[trigger] m.transposed().at(r, c) == m.at(
                c,
                r,
            ),
{
    lemma_from_fn(m.cols, m.rows, |r: int, c: int| m.at(c, r));
}

/// A block is well formed, has the extents asked for, and holds at `(r, c)` the entry
/// of the matrix at `(row0 + r, col0 + c)`.
pub proof fn lemma_block<T: Numeric>(m: MatrixView<T>, row0: int, col0: int, rows: nat, cols: nat)
    ensures
        m.block(row0, col0, rows, cols).wf(),
        m.block(row0, col0, rows, cols).rows == rows,
        m.block(row0, col0, rows, cols).cols == cols,
        forall|r: int, c: int|
            0 <= r < rows && 0 <= c < cols ==> #[trigger] m.block(row0, col0, rows, cols).at(r, c)
                == m.at(row0 + r, col0 + c),
{
    lemma_from_fn(rows, cols, |r: int, c: int| m.at(row0 + r, col0 + c));
}

/// The merged matrix is well formed and square, of twice the side of the first
/// quadrant, and holds each quadrant in its corner.
pub proof fn lemma_merged<T: Numeric>(
    q1: MatrixView<T>,
    q2: MatrixView<T>,
    q3: MatrixView<T>,
    q4: MatrixView<T>,
)
    ensures
        MatrixView::merged(q1, q2, q3, q4).wf(),
        MatrixView::merged(q1, q2, q3, q4).rows == 2 * q1.rows,
        MatrixView::merged(q1, q2, q3, q4).cols == 2 * q1.rows,
        forall|r: int, c: int|
            0 <= r < 2 * q1.rows && 0 <= c < 2 * q1.rows ==> #[trigger] MatrixView::merged(
                q1,
                q2,
                q3,
                q4,
            ).at(r, c) == (if r < q1.rows {
                if c < q1.rows {
                    q1.at(r, c)
                } else {
                    q2.at(r, c - q1.rows)
                }
            } else {
                if c < q1.rows {
                    q3.at(r - q1.rows, c)
                } else {
                    q4.at(r - q1.rows, c - q1.rows)
                }
            }),
{
    let s = q1.rows as int;
    lemma_from_fn(
        2 * q1.rows,
        2 * q1.rows,
        |r: int, c: int|
            if r < s {
                if c < s {
                    q1.at(r, c)
                } else {
                    q2.at(r, c - s)
                }
            } else {
                if c < s {
                    q3.at(r - s, c)
                } else {
                    q4.at(r - s, c - s)
                }
            },
    );
}

/// The quadrants of a square matrix of even side are well formed, square, and hold the
/// entries of their corner.
pub proof fn lemma_quarter<T: Numeric>(x: MatrixView<T>, qr: int, qc: int)
    requires
        x.wf(),
        x.is_square(),
        x.rows % 2 == 0,
        0 <= qr <= 1,
        0 <= qc <= 1,
    ensures
        x.quarter(qr, qc).wf(),
        x.quarter(qr, qc).rows == x.rows / 2,
        x.quarter(qr, qc).cols == x.rows / 2,
        forall|r: int, c: int|
            0 <= r < x.rows / 2 && 0 <= c < x.rows / 2 ==> #[trigger] x.quarter(qr, qc).at(r, c)
                == x.at(qr * (x.rows as int / 2) + r, qc * (x.rows as int / 2) + c),
{
    lemma_block(x, qr * (x.rows / 2) as int, qc * (x.cols / 2) as int, x.rows / 2, x.cols / 2);
}

/// Sum and difference are well formed, of the extents of their operands, and hold the
/// sum or difference of the entries at each position.
pub proof fn lemma_sum_difference<T: Numeric>(u: MatrixView<T>, v: MatrixView<T>)
    requires
        u.wf(),
        v.wf(),
        u.rows == v.rows,
        u.cols == v.cols,
    ensures
        u.sum(v).wf() && u.sum(v).rows == u.rows && u.sum(v).cols == u.cols,
        u.difference(v).wf() && u.difference(v).rows == u.rows && u.difference(v).cols == u.cols,
        forall|r: int, c: int|
            u.has(r, c) ==> #[trigger] u.sum(v).at(r, c) == elem_sum(u.at(r, c), v.at(r, c)),
        forall|r: int, c: int|
            u.has(r, c) ==> #[trigger] u.difference(v).at(r, c) == elem_difference(
                u.at(r, c),
                v.at(r, c),
            ),
{
    assert forall|r: int, c: int| u.has(r, c) implies #[trigger] u.sum(v).at(r, c) == elem_sum(
        u.at(r, c),
        v.at(r, c),
    ) by {
        lemma_index_of_position(r, c, u.rows as int, u.cols as int);
    }
    assert forall|r: int, c: int| u.has(r, c) implies #[trigger] u.difference(v).at(r, c)
        == elem_difference(u.at(r, c), v.at(r, c)) by {
        lemma_index_of_position(r, c, u.rows as int, u.cols as int);
    }
}

/// The product is well formed, has the rows of its left and the columns of its right
/// operand, and holds the reduced sum of products at each position.
pub proof fn lemma_product<T: Numeric>(u: MatrixView<T>, v: MatrixView<T>)
    ensures
        u.product(v).wf(),
        u.product(v).rows == u.rows,
        u.product(v).cols == v.cols,
        forall|r: int, c: int|
            0 <= r < u.rows && 0 <= c < v.cols ==> #[trigger] u.product(v).at(r, c) == reduce::<T>(
                dot(u, v, r, c, u.cols as int),
            ),
{
    lemma_from_fn(u.rows, v.cols, |r: int, c: int| reduce::<T>(dot(u, v, r, c, u.cols as int)));
}

/// A padded matrix is well formed and square, and holds the matrix in its top-left
/// corner and zero elsewhere.
pub proof fn lemma_padded<T: Numeric>(a: MatrixView<T>, n: nat)
    ensures
        a.padded(n).wf(),
        a.padded(n).rows == n,
        a.padded(n).cols == n,
        forall|r: int, c: int|
            0 <= r < n && 0 <= c < n ==> #[trigger] a.padded(n).at(r, c) == (if r < a.rows && c
                < a.cols {
                a.at(r, c)
            } else {
                elem_zero::<T>()
            }),
{
    lemma_from_fn(
        n,
        n,
        |r: int, c: int|
            if r < a.rows && c < a.cols {
                a.at(r, c)
            } else {
                elem_zero::<T>()
            },
    );
}

} // verus!
