//! The direct product: the state of its accumulation, step by step.

use super::entries::{lemma_index_of_position, lemma_position_of_index};
use super::model::{dot, MatrixView};
use super::numeric::{
    elem_product, elem_sum, elem_zero, lemma_sum_of_reduced, lemma_zero_is_reduced, reduce,
    Numeric,
};
use vstd::prelude::*;

verus! {

/// How many terms of the entry at `(r, c)` have been accumulated when the direct
/// product stands at row `i`, term `k` and column `j`.
pub open spec fn terms_done(terms: int, r: int, c: int, i: int, k: int, j: int) -> int {
    if r < i {
        terms
    } else if r == i {
        if c < j {
            k + 1
        } else {
            k
        }
    } else {
        0
    }
}

/// The buffer of the direct product of `a` and `b` at row `i`, term `k` and column `j`:
/// each entry holds the reduced sum of the terms accumulated so far.
pub open spec fn accumulated<T: Numeric>(
    data: Seq<T>,
    a: MatrixView<T>,
    b: MatrixView<T>,
    i: int,
    k: int,
    j: int,
) -> bool {
    &&& data.len() == a.rows * b.cols
    &&& forall|idx: int|
        0 <= idx < data.len() ==> #[trigger] data[idx] == reduce::<T>(
            dot(
                a,
                b,
                idx / b.cols as int,
                idx % b.cols as int,
                terms_done(a.cols as int, idx / b.cols as int, idx % b.cols as int, i, k, j),
            ),
        )
}

/// A buffer of zeros is the state before the first step.
pub proof fn lemma_accumulated_start<T: Numeric>(data: Seq<T>, a: MatrixView<T>, b: MatrixView<T>)
    requires
        data.len() == a.rows * b.cols,
        forall|idx: int| 0 <= idx < data.len() ==> data[idx] == elem_zero::<T>(),
    ensures
        accumulated(data, a, b, 0, 0, 0),
{
    lemma_zero_is_reduced::<T>();
    assert forall|idx: int| 0 <= idx < data.len() implies #[trigger] data[idx] == reduce::<T>(
        dot(
            a,
            b,
            idx / b.cols as int,
            idx % b.cols as int,
            terms_done(a.cols as int, idx / b.cols as int, idx % b.cols as int, 0, 0, 0),
        ),
    ) by {
        lemma_position_of_index(idx, a.rows as int, b.cols as int);
    }
}

/// Accumulating the term `a[i][k] * b[k][j]` into the entry at `(i, j)` moves the state
/// one column on.
pub proof fn lemma_accumulated_step<T: Numeric>(
    data: Seq<T>,
    a: MatrixView<T>,
    b: MatrixView<T>,
    i: int,
    k: int,
    j: int,
)
    requires
        accumulated(data, a, b, i, k, j),
        0 <= i < a.rows,
        0 <= k < a.cols,
        0 <= j < b.cols,
    ensures
        0 <= i * b.cols + j < data.len(),
        accumulated(
            data.update(
                i * b.cols + j,
                elem_sum(data[i * b.cols + j], elem_product(a.at(i, k), b.at(k, j))),
            ),
            a,
            b,
            i,
            k,
            j + 1,
        ),
{
    let cols = b.cols as int;
    let at = i * cols + j;
    lemma_index_of_position(i, j, a.rows as int, cols);
    let term = a.at(i, k).value() * b.at(k, j).value();
    let next = data.update(at, elem_sum(data[at], elem_product(a.at(i, k), b.at(k, j))));
    assert(data[at] == reduce::<T>(dot(a, b, i, j, k)));
    lemma_sum_of_reduced::<T>(dot(a, b, i, j, k), term);
    assert(dot(a, b, i, j, k + 1) == dot(a, b, i, j, k) + term);
    assert forall|idx: int| 0 <= idx < next.len() implies #[trigger] next[idx] == reduce::<T>(
        dot(
            a,
            b,
            idx / cols,
            idx % cols,
            terms_done(a.cols as int, idx / cols, idx % cols, i, k, j + 1),
        ),
    ) by {
        lemma_position_of_index(idx, a.rows as int, cols);
        if idx != at {
            assert(next[idx] == data[idx]);
        }
    }
}

/// With every column done, the state stands at the next term.
pub proof fn lemma_accumulated_next_term<T: Numeric>(
    data: Seq<T>,
    a: MatrixView<T>,
    b: MatrixView<T>,
    i: int,
    k: int,
)
    requires
        accumulated(data, a, b, i, k, b.cols as int),
    ensures
        accumulated(data, a, b, i, k + 1, 0),
{
    assert forall|idx: int| 0 <= idx < data.len() implies #[trigger] data[idx] == reduce::<T>(
        dot(
            a,
            b,
            idx / b.cols as int,
            idx % b.cols as int,
            terms_done(a.cols as int, idx / b.cols as int, idx % b.cols as int, i, k + 1, 0),
        ),
    ) by {
        lemma_position_of_index(idx, a.rows as int, b.cols as int);
    }
}

/// With every term done, the state stands at the next row.
pub proof fn lemma_accumulated_next_row<T: Numeric>(
    data: Seq<T>,
    a: MatrixView<T>,
    b: MatrixView<T>,
    i: int,
)
    requires
        accumulated(data, a, b, i, a.cols as int, 0),
    ensures
        accumulated(data, a, b, i + 1, 0, 0),
{
    assert forall|idx: int| 0 <= idx < data.len() implies #[trigger] data[idx] == reduce::<T>(
        dot(
            a,
            b,
            idx / b.cols as int,
            idx % b.cols as int,
            terms_done(a.cols as int, idx / b.cols as int, idx % b.cols as int, i + 1, 0, 0),
        ),
    ) by {
        lemma_position_of_index(idx, a.rows as int, b.cols as int);
    }
}

/// With every row done, the buffer holds the product.
pub proof fn lemma_accumulated_end<T: Numeric>(data: Seq<T>, a: MatrixView<T>, b: MatrixView<T>)
    requires
        accumulated(data, a, b, a.rows as int, 0, 0),
    ensures
        data == a.product(b).data,
{
    assert forall|idx: int| 0 <= idx < data.len() implies data[idx] == a.product(b).data[idx] by {
        lemma_position_of_index(idx, a.rows as int, b.cols as int);
    }
    assert(data =~= a.product(b).data);
}

} // verus!
