//! Strassen's scheme as a mathematical value, and the proof that it is the product.

use super::dot::{lemma_dot_concat, lemma_dot_equal, lemma_dot_left, lemma_dot_right};
use super::entries::{
    lemma_equal_by_entries, lemma_merged, lemma_padded, lemma_product, lemma_quarter,
    lemma_sum_difference,
};
use super::laws::lemma_product_of_padded;
use super::model::{dot, MatrixView};
use super::modular::{lemma_residue_product, lemma_residue_sum};
use super::numeric::{
    elem_difference, elem_product, elem_sum, lemma_difference_of_reduced, lemma_reduce_congruent,
    lemma_reduce_value, lemma_sum_of_reduced, lemma_zero_value, reduce, Numeric,
};
use super::power::lemma_pow2_half;
use vstd::arithmetic::power2::is_pow2;
use vstd::prelude::*;

verus! {

/// `u1 + u2` for `s == 1`, `u1 - u2` for `s == -1`, and `u1` itself otherwise.
pub open spec fn combined<T: Numeric>(u1: MatrixView<T>, u2: MatrixView<T>, s: int) -> MatrixView<
    T,
> {
    if s == 1 {
        u1.sum(u2)
    } else if s == -1 {
        u1.difference(u2)
    } else {
        u1
    }
}

/// The first of the seven products: `(a11 + a22) * (b11 + b22)`.
pub open spec fn strassen_m1<T: Numeric>(x: MatrixView<T>, y: MatrixView<T>) -> MatrixView<T> {
    x.quarter(0, 0).sum(x.quarter(1, 1)).product(y.quarter(0, 0).sum(y.quarter(1, 1)))
}

/// The second product: `(a21 + a22) * b11`.
pub open spec fn strassen_m2<T: Numeric>(x: MatrixView<T>, y: MatrixView<T>) -> MatrixView<T> {
    x.quarter(1, 0).sum(x.quarter(1, 1)).product(y.quarter(0, 0))
}

/// The third product: `a11 * (b12 - b22)`.
pub open spec fn strassen_m3<T: Numeric>(x: MatrixView<T>, y: MatrixView<T>) -> MatrixView<T> {
    x.quarter(0, 0).product(y.quarter(0, 1).difference(y.quarter(1, 1)))
}

/// The fourth product: `a22 * (b21 - b11)`.
pub open spec fn strassen_m4<T: Numeric>(x: MatrixView<T>, y: MatrixView<T>) -> MatrixView<T> {
    x.quarter(1, 1).product(y.quarter(1, 0).difference(y.quarter(0, 0)))
}

/// The fifth product: `(a11 + a12) * b22`.
pub open spec fn strassen_m5<T: Numeric>(x: MatrixView<T>, y: MatrixView<T>) -> MatrixView<T> {
    x.quarter(0, 0).sum(x.quarter(0, 1)).product(y.quarter(1, 1))
}

/// The sixth product: `(a21 - a11) * (b11 + b12)`.
pub open spec fn strassen_m6<T: Numeric>(x: MatrixView<T>, y: MatrixView<T>) -> MatrixView<T> {
    x.quarter(1, 0).difference(x.quarter(0, 0)).product(y.quarter(0, 0).sum(y.quarter(0, 1)))
}

/// The seventh product: `(a12 - a22) * (b21 + b22)`.
pub open spec fn strassen_m7<T: Numeric>(x: MatrixView<T>, y: MatrixView<T>) -> MatrixView<T> {
    x.quarter(0, 1).difference(x.quarter(1, 1)).product(y.quarter(1, 0).sum(y.quarter(1, 1)))
}

/// The top-left quadrant of the result: `m1 + m4 - m5 + m7`.
pub open spec fn strassen_c11<T: Numeric>(x: MatrixView<T>, y: MatrixView<T>) -> MatrixView<T> {
    strassen_m1(x, y).sum(strassen_m4(x, y)).difference(strassen_m5(x, y)).sum(strassen_m7(x, y))
}

/// The top-right quadrant of the result: `m3 + m5`.
pub open spec fn strassen_c12<T: Numeric>(x: MatrixView<T>, y: MatrixView<T>) -> MatrixView<T> {
    strassen_m3(x, y).sum(strassen_m5(x, y))
}

/// The bottom-left quadrant of the result: `m2 + m4`.
pub open spec fn strassen_c21<T: Numeric>(x: MatrixView<T>, y: MatrixView<T>) -> MatrixView<T> {
    strassen_m2(x, y).sum(strassen_m4(x, y))
}

/// The bottom-right quadrant of the result: `m1 - m2 + m3 + m6`.
pub open spec fn strassen_c22<T: Numeric>(x: MatrixView<T>, y: MatrixView<T>) -> MatrixView<T> {
    strassen_m1(x, y).difference(strassen_m2(x, y)).sum(strassen_m3(x, y)).sum(strassen_m6(x, y))
}

/// One level of Strassen's scheme on two square matrices of one even side: the four
/// result quadrants, merged.
pub open spec fn strassen_merge<T: Numeric>(x: MatrixView<T>, y: MatrixView<T>) -> MatrixView<T> {
    MatrixView::merged(
        strassen_c11(x, y),
        strassen_c12(x, y),
        strassen_c21(x, y),
        strassen_c22(x, y),
    )
}

/// What the divide-and-conquer engine computes for `a`, `b` and a side `size`: both
/// operands are padded to `size` by `size`; for `size == 1` the result is the 1 by 1
/// product of the two scalars, otherwise one level of Strassen's scheme, cropped to
/// the rows of `a` and the columns of `b`.
pub open spec fn strassen_product<T: Numeric>(
    a: MatrixView<T>,
    b: MatrixView<T>,
    size: nat,
) -> MatrixView<T> {
    let pa = a.padded(size);
    let pb = b.padded(size);
    if size == 1 {
        MatrixView { rows: 1, cols: 1, data: seq![elem_product(pa.at(0, 0), pb.at(0, 0))] }
    } else {
        strassen_merge(pa, pb).cropped(a.rows, b.cols)
    }
}

/// `size` can hold both operands of a product and can be bisected down to 1.
pub open spec fn strassen_size_fits<T: Numeric>(
    a: MatrixView<T>,
    b: MatrixView<T>,
    size: nat,
) -> bool {
    &&& is_pow2(size as int)
    &&& size >= a.rows && size >= a.cols
    &&& size >= b.rows && size >= b.cols
}

/// The entries of a combination are congruent to the combination of the entries.
pub proof fn lemma_combined<T: Numeric>(u1: MatrixView<T>, u2: MatrixView<T>, s: int)
    requires
        u1.wf(),
        u2.wf(),
        u1.rows == u2.rows,
        u1.cols == u2.cols,
        -1 <= s <= 1,
    ensures
        combined(u1, u2, s).wf(),
        combined(u1, u2, s).rows == u1.rows,
        combined(u1, u2, s).cols == u1.cols,
        forall|r: int, c: int|
            u1.has(r, c) ==> (#[trigger] combined(u1, u2, s).at(r, c)).value() % T::modulus() == (
            u1.at(r, c).value() + s * u2.at(r, c).value()) % T::modulus(),
{
    lemma_sum_difference(u1, u2);
    assert forall|r: int, c: int| u1.has(r, c) implies (#[trigger] combined(u1, u2, s).at(
        r,
        c,
    )).value() % T::modulus() == (u1.at(r, c).value() + s * u2.at(r, c).value())
        % T::modulus() by {
        let x1 = u1.at(r, c).value();
        let x2 = u2.at(r, c).value();
        if s == 1 {
            assert(u1.sum(u2).at(r, c) == elem_sum(u1.at(r, c), u2.at(r, c)));
            lemma_reduce_value::<T>(x1 + x2);
        } else if s == -1 {
            assert(u1.difference(u2).at(r, c) == elem_difference(u1.at(r, c), u2.at(r, c)));
            lemma_reduce_value::<T>(x1 - x2);
        } else {
            assert(s == 0);
        }
    }
}

/// The entry of a product of two combinations: the reduced combination of the four
/// sums of products.
pub proof fn lemma_combined_product<T: Numeric>(
    u1: MatrixView<T>,
    u2: MatrixView<T>,
    su: int,
    v1: MatrixView<T>,
    v2: MatrixView<T>,
    sv: int,
    r: int,
    c: int,
)
    requires
        u1.wf() && u2.wf() && v1.wf() && v2.wf(),
        u1.is_square() && u2.is_square() && v1.is_square() && v2.is_square(),
        u1.rows == u2.rows && u2.rows == v1.rows && v1.rows == v2.rows,
        -1 <= su <= 1,
        -1 <= sv <= 1,
        0 <= r < u1.rows,
        0 <= c < u1.rows,
    ensures
        combined(u1, u2, su).product(combined(v1, v2, sv)).wf(),
        combined(u1, u2, su).product(combined(v1, v2, sv)).rows == u1.rows,
        combined(u1, u2, su).product(combined(v1, v2, sv)).cols == u1.rows,
        combined(u1, u2, su).product(combined(v1, v2, sv)).at(r, c) == reduce::<T>(
            dot(u1, v1, r, c, u1.rows as int) + sv * dot(u1, v2, r, c, u1.rows as int) + su * dot(
                u2,
                v1,
                r,
                c,
                u1.rows as int,
            ) + su * sv * dot(u2, v2, r, c, u1.rows as int),
        ),
{
    let h = u1.rows as int;
    let m = T::modulus();
    let u = combined(u1, u2, su);
    let v = combined(v1, v2, sv);
    T::lemma_window();
    lemma_combined(u1, u2, su);
    lemma_combined(v1, v2, sv);
    lemma_product(u, v);
    assert forall|k: int| 0 <= k < h implies (#[trigger] u.at(r, k)).value() % m == (u1.at(
        r,
        k,
    ).value() + su * u2.at(r, k).value()) % m by {
        assert(u1.has(r, k));
    }
    assert forall|k: int| 0 <= k < h implies (#[trigger] v.at(k, c)).value() % m == (v1.at(
        k,
        c,
    ).value() + sv * v2.at(k, c).value()) % m by {
        assert(v1.has(k, c));
    }
    lemma_dot_left(u, u1, u2, su, v, r, c, h, m);
    lemma_dot_right(u1, v, v1, v2, sv, r, c, h, m);
    lemma_dot_right(u2, v, v1, v2, sv, r, c, h, m);
    let d11 = dot(u1, v1, r, c, h);
    let d12 = dot(u1, v2, r, c, h);
    let d21 = dot(u2, v1, r, c, h);
    let d22 = dot(u2, v2, r, c, h);
    lemma_residue_product(su, su, dot(u2, v, r, c, h), d21 + sv * d22, m);
    lemma_residue_sum(
        dot(u1, v, r, c, h),
        d11 + sv * d12,
        su * dot(u2, v, r, c, h),
        su * (d21 + sv * d22),
        m,
    );
    assert(su * (d21 + sv * d22) == su * d21 + su * sv * d22) by (nonlinear_arith);
    lemma_reduce_congruent::<T>(dot(u, v, r, c, h), d11 + sv * d12 + su * d21 + su * sv * d22);
}

/// Two square matrices of one even side, ready to be bisected.
pub open spec fn bisectable<T: Numeric>(x: MatrixView<T>, y: MatrixView<T>) -> bool {
    &&& x.wf() && y.wf()
    &&& x.is_square() && y.is_square()
    &&& x.rows == y.rows
    &&& x.rows % 2 == 0
}

/// The entry of a product, from the quadrants of its operands: the sum of products
/// runs through the left half of a row and then through its right half.
pub proof fn lemma_product_by_blocks<T: Numeric>(
    x: MatrixView<T>,
    y: MatrixView<T>,
    qr: int,
    qc: int,
    r: int,
    c: int,
)
    requires
        bisectable(x, y),
        0 <= qr <= 1,
        0 <= qc <= 1,
        0 <= r < x.rows / 2,
        0 <= c < x.rows / 2,
    ensures
        x.product(y).at(qr * (x.rows as int / 2) + r, qc * (x.rows as int / 2) + c) == reduce::<T>(
            dot(x.quarter(qr, 0), y.quarter(0, qc), r, c, x.rows as int / 2) + dot(
                x.quarter(qr, 1),
                y.quarter(1, qc),
                r,
                c,
                x.rows as int / 2,
            ),
        ),
{
    let h = x.rows as int / 2;
    let big_r = qr * h + r;
    let big_c = qc * h + c;
    assert(0 <= big_r < x.rows && 0 <= big_c < x.rows) by (nonlinear_arith)
        requires
            0 <= qr <= 1,
            0 <= qc <= 1,
            0 <= r < h,
            0 <= c < h,
            x.rows == 2 * h,
            big_r == qr * h + r,
            big_c == qc * h + c,
    ;
    lemma_product(x, y);
    lemma_quarter(x, qr, 0);
    lemma_quarter(x, qr, 1);
    lemma_quarter(y, 0, qc);
    lemma_quarter(y, 1, qc);
    let x0 = x.quarter(qr, 0);
    let x1 = x.quarter(qr, 1);
    let y0 = y.quarter(0, qc);
    let y1 = y.quarter(1, qc);
    assert forall|k: int| 0 <= k < h implies (#[trigger] x.at(big_r, k)).value() == x0.at(
        r,
        k,
    ).value() by {
        assert(x0.at(r, k) == x.at(qr * h + r, 0 * h + k));
    }
    assert forall|k: int| 0 <= k < h implies (#[trigger] y.at(k, big_c)).value() == y0.at(
        k,
        c,
    ).value() by {
        assert(y0.at(k, c) == y.at(0 * h + k, qc * h + c));
    }
    lemma_dot_equal(x, y, big_r, big_c, x0, y0, r, c, h);
    assert forall|k: int| 0 <= k < h implies (#[trigger] x.at(big_r, h + k)).value() == x1.at(
        r,
        k,
    ).value() by {
        assert(x1.at(r, k) == x.at(qr * h + r, 1 * h + k));
    }
    assert forall|k: int| 0 <= k < h implies (#[trigger] y.at(h + k, big_c)).value() == y1.at(
        k,
        c,
    ).value() by {
        assert(y1.at(k, c) == y.at(1 * h + k, qc * h + c));
    }
    lemma_dot_concat(x, y, big_r, big_c, x1, y1, r, c, h, h);
}

/// The entry of a sum of two matrices whose entries are known as reduced integers.
pub proof fn lemma_sum_entry<T: Numeric>(
    u: MatrixView<T>,
    v: MatrixView<T>,
    r: int,
    c: int,
    x: int,
    y: int,
)
    requires
        u.wf() && v.wf(),
        u.rows == v.rows && u.cols == v.cols,
        u.has(r, c),
        u.at(r, c) == reduce::<T>(x),
        v.at(r, c) == reduce::<T>(y),
    ensures
        u.sum(v).wf() && u.sum(v).rows == u.rows && u.sum(v).cols == u.cols,
        u.sum(v).at(r, c) == reduce::<T>(x + y),
{
    lemma_sum_difference(u, v);
    lemma_sum_of_reduced::<T>(x, y);
}

/// The entry of a difference of two matrices whose entries are known as reduced
/// integers.
pub proof fn lemma_difference_entry<T: Numeric>(
    u: MatrixView<T>,
    v: MatrixView<T>,
    r: int,
    c: int,
    x: int,
    y: int,
)
    requires
        u.wf() && v.wf(),
        u.rows == v.rows && u.cols == v.cols,
        u.has(r, c),
        u.at(r, c) == reduce::<T>(x),
        v.at(r, c) == reduce::<T>(y),
    ensures
        u.difference(v).wf() && u.difference(v).rows == u.rows && u.difference(v).cols == u.cols,
        u.difference(v).at(r, c) == reduce::<T>(x - y),
{
    lemma_sum_difference(u, v);
    lemma_difference_of_reduced::<T>(x, y);
}

/// The top-left quadrant of the scheme is the top-left quadrant of the product.
pub proof fn lemma_strassen_c11<T: Numeric>(x: MatrixView<T>, y: MatrixView<T>, r: int, c: int)
    requires
        bisectable(x, y),
        0 <= r < x.rows / 2,
        0 <= c < x.rows / 2,
    ensures
        strassen_c11(x, y).wf(),
        strassen_c11(x, y).rows == x.rows / 2,
        strassen_c11(x, y).cols == x.rows / 2,
        strassen_c11(x, y).at(r, c) == x.product(y).at(r, c),
{
    let h = x.rows as int / 2;
    lemma_quarter(x, 0, 0);
    lemma_quarter(x, 0, 1);
    lemma_quarter(x, 1, 0);
    lemma_quarter(x, 1, 1);
    lemma_quarter(y, 0, 0);
    lemma_quarter(y, 0, 1);
    lemma_quarter(y, 1, 0);
    lemma_quarter(y, 1, 1);
    let a11 = x.quarter(0, 0);
    let a12 = x.quarter(0, 1);
    let a22 = x.quarter(1, 1);
    let b11 = y.quarter(0, 0);
    let b21 = y.quarter(1, 0);
    let b22 = y.quarter(1, 1);
    let m1 = strassen_m1(x, y);
    let m4 = strassen_m4(x, y);
    let m5 = strassen_m5(x, y);
    let m7 = strassen_m7(x, y);
    lemma_combined_product(a11, a22, 1, b11, b22, 1, r, c);
    lemma_combined_product(a22, a22, 0, b21, b11, -1, r, c);
    lemma_combined_product(a11, a12, 1, b22, b22, 0, r, c);
    lemma_combined_product(a12, a22, -1, b21, b22, 1, r, c);
    let e1 = dot(a11, b11, r, c, h) + dot(a11, b22, r, c, h) + dot(a22, b11, r, c, h) + dot(
        a22,
        b22,
        r,
        c,
        h,
    );
    let e4 = dot(a22, b21, r, c, h) - dot(a22, b11, r, c, h);
    let e5 = dot(a11, b22, r, c, h) + dot(a12, b22, r, c, h);
    let e7 = dot(a12, b21, r, c, h) + dot(a12, b22, r, c, h) - dot(a22, b21, r, c, h) - dot(
        a22,
        b22,
        r,
        c,
        h,
    );
    assert(m1.at(r, c) == reduce::<T>(e1));
    assert(m4.at(r, c) == reduce::<T>(e4));
    assert(m5.at(r, c) == reduce::<T>(e5));
    assert(m7.at(r, c) == reduce::<T>(e7));
    lemma_sum_entry(m1, m4, r, c, e1, e4);
    lemma_difference_entry(m1.sum(m4), m5, r, c, e1 + e4, e5);
    lemma_sum_entry(m1.sum(m4).difference(m5), m7, r, c, e1 + e4 - e5, e7);
    lemma_product_by_blocks(x, y, 0, 0, r, c);
    assert(0 * h + r == r && 0 * h + c == c);
}

/// The top-right quadrant of the scheme is the top-right quadrant of the product.
pub proof fn lemma_strassen_c12<T: Numeric>(x: MatrixView<T>, y: MatrixView<T>, r: int, c: int)
    requires
        bisectable(x, y),
        0 <= r < x.rows / 2,
        0 <= c < x.rows / 2,
    ensures
        strassen_c12(x, y).wf(),
        strassen_c12(x, y).rows == x.rows / 2,
        strassen_c12(x, y).cols == x.rows / 2,
        strassen_c12(x, y).at(r, c) == x.product(y).at(r, x.rows / 2 + c),
{
    let h = x.rows as int / 2;
    lemma_quarter(x, 0, 0);
    lemma_quarter(x, 0, 1);
    lemma_quarter(y, 0, 1);
    lemma_quarter(y, 1, 1);
    let a11 = x.quarter(0, 0);
    let a12 = x.quarter(0, 1);
    let b12 = y.quarter(0, 1);
    let b22 = y.quarter(1, 1);
    let m3 = strassen_m3(x, y);
    let m5 = strassen_m5(x, y);
    lemma_combined_product(a11, a11, 0, b12, b22, -1, r, c);
    lemma_combined_product(a11, a12, 1, b22, b22, 0, r, c);
    let e3 = dot(a11, b12, r, c, h) - dot(a11, b22, r, c, h);
    let e5 = dot(a11, b22, r, c, h) + dot(a12, b22, r, c, h);
    assert(m3.at(r, c) == reduce::<T>(e3));
    assert(m5.at(r, c) == reduce::<T>(e5));
    lemma_sum_entry(m3, m5, r, c, e3, e5);
    lemma_product_by_blocks(x, y, 0, 1, r, c);
    assert(0 * h + r == r && 1 * h + c == h + c);
}

/// The bottom-left quadrant of the scheme is the bottom-left quadrant of the product.
pub proof fn lemma_strassen_c21<T: Numeric>(x: MatrixView<T>, y: MatrixView<T>, r: int, c: int)
    requires
        bisectable(x, y),
        0 <= r < x.rows / 2,
        0 <= c < x.rows / 2,
    ensures
        strassen_c21(x, y).wf(),
        strassen_c21(x, y).rows == x.rows / 2,
        strassen_c21(x, y).cols == x.rows / 2,
        strassen_c21(x, y).at(r, c) == x.product(y).at(x.rows / 2 + r, c),
{
    let h = x.rows as int / 2;
    lemma_quarter(x, 1, 0);
    lemma_quarter(x, 1, 1);
    lemma_quarter(y, 0, 0);
    lemma_quarter(y, 1, 0);
    let a21 = x.quarter(1, 0);
    let a22 = x.quarter(1, 1);
    let b11 = y.quarter(0, 0);
    let b21 = y.quarter(1, 0);
    let m2 = strassen_m2(x, y);
    let m4 = strassen_m4(x, y);
    lemma_combined_product(a21, a22, 1, b11, b11, 0, r, c);
    lemma_combined_product(a22, a22, 0, b21, b11, -1, r, c);
    let e2 = dot(a21, b11, r, c, h) + dot(a22, b11, r, c, h);
    let e4 = dot(a22, b21, r, c, h) - dot(a22, b11, r, c, h);
    assert(m2.at(r, c) == reduce::<T>(e2));
    assert(m4.at(r, c) == reduce::<T>(e4));
    lemma_sum_entry(m2, m4, r, c, e2, e4);
    lemma_product_by_blocks(x, y, 1, 0, r, c);
    assert(1 * h + r == h + r && 0 * h + c == c);
}

/// The bottom-right quadrant of the scheme is the bottom-right quadrant of the product.
pub proof fn lemma_strassen_c22<T: Numeric>(x: MatrixView<T>, y: MatrixView<T>, r: int, c: int)
    requires
        bisectable(x, y),
        0 <= r < x.rows / 2,
        0 <= c < x.rows / 2,
    ensures
        strassen_c22(x, y).wf(),
        strassen_c22(x, y).rows == x.rows / 2,
        strassen_c22(x, y).cols == x.rows / 2,
        strassen_c22(x, y).at(r, c) == x.product(y).at(x.rows / 2 + r, x.rows / 2 + c),
{
    let h = x.rows as int / 2;
    lemma_quarter(x, 0, 0);
    lemma_quarter(x, 1, 0);
    lemma_quarter(x, 1, 1);
    lemma_quarter(y, 0, 0);
    lemma_quarter(y, 0, 1);
    lemma_quarter(y, 1, 1);
    let a11 = x.quarter(0, 0);
    let a21 = x.quarter(1, 0);
    let a22 = x.quarter(1, 1);
    let b11 = y.quarter(0, 0);
    let b12 = y.quarter(0, 1);
    let b22 = y.quarter(1, 1);
    let m1 = strassen_m1(x, y);
    let m2 = strassen_m2(x, y);
    let m3 = strassen_m3(x, y);
    let m6 = strassen_m6(x, y);
    lemma_combined_product(a11, a22, 1, b11, b22, 1, r, c);
    lemma_combined_product(a21, a22, 1, b11, b11, 0, r, c);
    lemma_combined_product(a11, a11, 0, b12, b22, -1, r, c);
    lemma_combined_product(a21, a11, -1, b11, b12, 1, r, c);
    let e1 = dot(a11, b11, r, c, h) + dot(a11, b22, r, c, h) + dot(a22, b11, r, c, h) + dot(
        a22,
        b22,
        r,
        c,
        h,
    );
    let e2 = dot(a21, b11, r, c, h) + dot(a22, b11, r, c, h);
    let e3 = dot(a11, b12, r, c, h) - dot(a11, b22, r, c, h);
    let e6 = dot(a21, b11, r, c, h) + dot(a21, b12, r, c, h) - dot(a11, b11, r, c, h) - dot(
        a11,
        b12,
        r,
        c,
        h,
    );
    assert(m1.at(r, c) == reduce::<T>(e1));
    assert(m2.at(r, c) == reduce::<T>(e2));
    assert(m3.at(r, c) == reduce::<T>(e3));
    assert(m6.at(r, c) == reduce::<T>(e6));
    lemma_difference_entry(m1, m2, r, c, e1, e2);
    lemma_sum_entry(m1.difference(m2), m3, r, c, e1 - e2, e3);
    lemma_sum_entry(m1.difference(m2).sum(m3), m6, r, c, e1 - e2 + e3, e6);
    lemma_product_by_blocks(x, y, 1, 1, r, c);
    assert(1 * h + r == h + r && 1 * h + c == h + c);
}

/// The seven products and the four result quadrants are well formed and square, of
/// half the side of the operands.
pub proof fn lemma_strassen_shapes<T: Numeric>(x: MatrixView<T>, y: MatrixView<T>)
    requires
        bisectable(x, y),
    ensures
        strassen_c11(x, y).wf() && strassen_c11(x, y).rows == x.rows / 2 && strassen_c11(
            x,
            y,
        ).cols == x.rows / 2,
        strassen_c12(x, y).wf() && strassen_c12(x, y).rows == x.rows / 2 && strassen_c12(
            x,
            y,
        ).cols == x.rows / 2,
        strassen_c21(x, y).wf() && strassen_c21(x, y).rows == x.rows / 2 && strassen_c21(
            x,
            y,
        ).cols == x.rows / 2,
        strassen_c22(x, y).wf() && strassen_c22(x, y).rows == x.rows / 2 && strassen_c22(
            x,
            y,
        ).cols == x.rows / 2,
{
    lemma_quarter(x, 0, 0);
    lemma_quarter(x, 0, 1);
    lemma_quarter(x, 1, 0);
    lemma_quarter(x, 1, 1);
    lemma_quarter(y, 0, 0);
    lemma_quarter(y, 0, 1);
    lemma_quarter(y, 1, 0);
    lemma_quarter(y, 1, 1);
    let a11 = x.quarter(0, 0);
    let a12 = x.quarter(0, 1);
    let a21 = x.quarter(1, 0);
    let a22 = x.quarter(1, 1);
    let b11 = y.quarter(0, 0);
    let b12 = y.quarter(0, 1);
    let b21 = y.quarter(1, 0);
    let b22 = y.quarter(1, 1);
    lemma_sum_difference(a11, a22);
    lemma_sum_difference(b11, b22);
    lemma_sum_difference(a21, a22);
    lemma_sum_difference(b12, b22);
    lemma_sum_difference(b21, b11);
    lemma_sum_difference(a11, a12);
    lemma_sum_difference(a21, a11);
    lemma_sum_difference(b11, b12);
    lemma_sum_difference(a12, a22);
    lemma_sum_difference(b21, b22);
    let m1 = strassen_m1(x, y);
    let m2 = strassen_m2(x, y);
    let m3 = strassen_m3(x, y);
    let m4 = strassen_m4(x, y);
    let m5 = strassen_m5(x, y);
    let m6 = strassen_m6(x, y);
    let m7 = strassen_m7(x, y);
    lemma_product(a11.sum(a22), b11.sum(b22));
    lemma_product(a21.sum(a22), b11);
    lemma_product(a11, b12.difference(b22));
    lemma_product(a22, b21.difference(b11));
    lemma_product(a11.sum(a12), b22);
    lemma_product(a21.difference(a11), b11.sum(b12));
    lemma_product(a12.difference(a22), b21.sum(b22));
    lemma_sum_difference(m1, m4);
    lemma_sum_difference(m1.sum(m4), m5);
    lemma_sum_difference(m1.sum(m4).difference(m5), m7);
    lemma_sum_difference(m3, m5);
    lemma_sum_difference(m2, m4);
    lemma_sum_difference(m1, m2);
    lemma_sum_difference(m1.difference(m2), m3);
    lemma_sum_difference(m1.difference(m2).sum(m3), m6);
}

/// One level of Strassen's scheme gives the product.
pub proof fn lemma_strassen_merge<T: Numeric>(x: MatrixView<T>, y: MatrixView<T>)
    requires
        bisectable(x, y),
    ensures
        strassen_merge(x, y) == x.product(y),
{
    let h = x.rows as int / 2;
    let c11 = strassen_c11(x, y);
    let c12 = strassen_c12(x, y);
    let c21 = strassen_c21(x, y);
    let c22 = strassen_c22(x, y);
    let merged = strassen_merge(x, y);
    let whole = x.product(y);
    lemma_strassen_shapes(x, y);
    lemma_product(x, y);
    lemma_merged(c11, c12, c21, c22);
    assert forall|r: int, c: int| merged.has(r, c) implies #[trigger] merged.at(r, c) == whole.at(
        r,
        c,
    ) by {
        if r < h {
            if c < h {
                lemma_strassen_c11(x, y, r, c);
            } else {
                lemma_strassen_c12(x, y, r, c - h);
            }
        } else {
            if c < h {
                lemma_strassen_c21(x, y, r - h, c);
            } else {
                lemma_strassen_c22(x, y, r - h, c - h);
            }
        }
    }
    lemma_equal_by_entries(merged, whole);
}

/// The value of the divide-and-conquer engine is the product, on every side that fits
/// the operands. The side 1 is left out where the product has no entry, since the
/// engine answers with a 1 by 1 matrix there.
pub proof fn lemma_strassen_is_product<T: Numeric>(a: MatrixView<T>, b: MatrixView<T>, size: nat)
    requires
        a.wf(),
        b.wf(),
        a.cols == b.rows,
        strassen_size_fits(a, b, size),
        size > 1 || (a.rows == 1 && b.cols == 1),
    ensures
        strassen_product(a, b, size) == a.product(b),
{
    let pa = a.padded(size);
    let pb = b.padded(size);
    lemma_padded(a, size);
    lemma_padded(b, size);
    if size == 1 {
        let one = strassen_product(a, b, size);
        let whole = a.product(b);
        lemma_product(a, b);
        lemma_zero_value::<T>();
        assert(one.at(0, 0) == elem_product(pa.at(0, 0), pb.at(0, 0)));
        assert(whole.at(0, 0) == reduce::<T>(dot(a, b, 0, 0, a.cols as int)));
        if a.cols == 1 {
            assert(dot(a, b, 0, 0, 1) == dot(a, b, 0, 0, 0) + a.at(0, 0).value() * b.at(
                0,
                0,
            ).value());
        } else {
            assert(0 * pb.at(0, 0).value() == 0);
        }
        assert forall|r: int, c: int| one.has(r, c) implies #[trigger] one.at(r, c) == whole.at(
            r,
            c,
        ) by {
            assert(r == 0 && c == 0);
        }
        lemma_equal_by_entries(one, whole);
    } else {
        lemma_pow2_half(size as int);
        lemma_strassen_merge(pa, pb);
        lemma_product_of_padded(a, b, size);
    }
}

} // verus!
