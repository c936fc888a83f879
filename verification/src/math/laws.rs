//! What holds of the operations of the matrix model, whatever the matrix.

use super::dot::{lemma_dot_equal, lemma_dot_zero_tail};
use super::entries::{
    lemma_block, lemma_equal_by_entries, lemma_merged, lemma_padded, lemma_product,
    lemma_quarter, lemma_transposed,
};
use super::model::MatrixView;
use super::multiply::{dispatch_size, dispatched_product, largest_extent};
use super::numeric::{lemma_zero_value, Numeric};
use super::power::{lemma_next_pow2, lemma_pow2_half};
use super::strassen::{lemma_strassen_is_product, strassen_product};
use vstd::arithmetic::power2::is_pow2;
use vstd::prelude::*;

verus! {

/// The transpose of the transpose is the matrix itself.
pub proof fn lemma_transpose_involution<T: Numeric>(m: MatrixView<T>)
    requires
        m.wf(),
    ensures
        m.transposed().transposed() == m,
{
    let t = m.transposed();
    lemma_transposed(m);
    lemma_transposed(t);
    assert forall|r: int, c: int| m.has(r, c) implies #[trigger] t.transposed().at(r, c) == m.at(
        r,
        c,
    ) by {
        assert(t.at(c, r) == m.at(r, c));
    }
    lemma_equal_by_entries(t.transposed(), m);
}

/// A square matrix padded to its own side is the matrix itself.
pub proof fn lemma_pad_to_own_side<T: Numeric>(m: MatrixView<T>, n: nat)
    requires
        m.wf(),
        m.rows == n,
        m.cols == n,
    ensures
        m.padded(n) == m,
{
    lemma_padded(m, n);
    lemma_equal_by_entries(m.padded(n), m);
}

/// The four quadrants of a square matrix whose side is a power of two, merged, are
/// the matrix itself. The side 1 is left out: its quadrants are empty.
pub proof fn lemma_merge_of_quarters<T: Numeric>(m: MatrixView<T>)
    requires
        m.wf(),
        m.is_square(),
        is_pow2(m.rows as int),
        m.rows != 1,
    ensures
        MatrixView::merged(m.quarter(0, 0), m.quarter(0, 1), m.quarter(1, 0), m.quarter(1, 1))
            == m,
{
    super::power::lemma_pow2_positive(m.rows as int);
    lemma_pow2_half(m.rows as int);
    let h = m.rows as int / 2;
    let q1 = m.quarter(0, 0);
    let q2 = m.quarter(0, 1);
    let q3 = m.quarter(1, 0);
    let q4 = m.quarter(1, 1);
    let whole = MatrixView::merged(q1, q2, q3, q4);
    lemma_quarter(m, 0, 0);
    lemma_quarter(m, 0, 1);
    lemma_quarter(m, 1, 0);
    lemma_quarter(m, 1, 1);
    lemma_merged(q1, q2, q3, q4);
    assert forall|r: int, c: int| whole.has(r, c) implies #[trigger] whole.at(r, c) == m.at(
        r,
        c,
    ) by {
        if r < h {
            if c < h {
                assert(q1.at(r, c) == m.at(0 * h + r, 0 * h + c));
            } else {
                assert(q2.at(r, c - h) == m.at(0 * h + r, 1 * h + (c - h)));
            }
        } else {
            if c < h {
                assert(q3.at(r - h, c) == m.at(1 * h + (r - h), 0 * h + c));
            } else {
                assert(q4.at(r - h, c - h) == m.at(1 * h + (r - h), 1 * h + (c - h)));
            }
        }
    }
    lemma_equal_by_entries(whole, m);
}

/// Padding is transparent to the product: the product of the padded operands, cropped
/// to the rows of `a` and the columns of `b`, is the product of `a` and `b`.
pub proof fn lemma_product_of_padded<T: Numeric>(a: MatrixView<T>, b: MatrixView<T>, n: nat)
    requires
        a.wf(),
        b.wf(),
        a.cols == b.rows,
        n >= a.rows && n >= a.cols && n >= b.cols,
    ensures
        a.padded(n).product(b.padded(n)).cropped(a.rows, b.cols) == a.product(b),
{
    let pa = a.padded(n);
    let pb = b.padded(n);
    let whole = pa.product(pb);
    let crop = whole.cropped(a.rows, b.cols);
    let terms = a.cols as int;
    lemma_padded(a, n);
    lemma_padded(b, n);
    lemma_product(pa, pb);
    lemma_product(a, b);
    lemma_zero_value::<T>();
    lemma_block(whole, 0, 0, a.rows, b.cols);
    assert forall|r: int, c: int| crop.has(r, c) implies #[trigger] crop.at(r, c) == a.product(
        b,
    ).at(r, c) by {
        assert(crop.at(r, c) == whole.at(0 + r, 0 + c));
        assert forall|k: int| terms <= k < n implies (#[trigger] pa.at(r, k)).value() == 0 by {}
        lemma_dot_zero_tail(pa, pb, r, c, terms, n as int);
        assert forall|k: int| 0 <= k < terms implies (#[trigger] pa.at(r, k)).value() == a.at(
            r,
            k,
        ).value() by {}
        assert forall|k: int| 0 <= k < terms implies (#[trigger] pb.at(k, c)).value() == b.at(
            k,
            c,
        ).value() by {}
        lemma_dot_equal(pa, pb, r, c, a, b, r, c, terms);
    }
    lemma_equal_by_entries(crop, a.product(b));
}

/// The three strategies agree: for operands that can be multiplied, with the largest
/// extent rounded up to a power of two as the side, the direct product, the value of
/// the divide-and-conquer engine and the value of the dispatcher are one and the same
/// matrix. The side 1 is left out where the product has no entry: the engine answers
/// with a 1 by 1 matrix there.
pub proof fn lemma_strategies_agree<T: Numeric>(a: MatrixView<T>, b: MatrixView<T>)
    requires
        a.wf(),
        b.wf(),
        a.cols == b.rows,
        dispatch_size(a, b) > 1 || (a.rows == 1 && b.cols == 1),
    ensures
        strassen_product(a, b, dispatch_size(a, b) as nat) == a.product(b),
        dispatched_product(a, b) == a.product(b),
{
    lemma_next_pow2(largest_extent(a, b) as int);
    lemma_strassen_is_product(a, b, dispatch_size(a, b) as nat);
}

} // verus!
