//! Facts about the integer sum of products behind each entry of a matrix product.

use super::model::{dot, MatrixView};
use super::modular::{lemma_residue_product, lemma_residue_sum};
use super::numeric::Numeric;
use vstd::prelude::*;

verus! {

/// Terms that follow the first `n0` are the terms of another sum of products: the sum
/// over `n0 + n1` terms is the sum over the first `n0` and the other sum over `n1`.
pub proof fn lemma_dot_concat<T: Numeric>(
    u: MatrixView<T>,
    v: MatrixView<T>,
    r: int,
    c: int,
    u2: MatrixView<T>,
    v2: MatrixView<T>,
    r2: int,
    c2: int,
    n0: int,
    n1: int,
)
    requires
        0 <= n0,
        0 <= n1,
        forall|k: int|
            0 <= k < n1 ==> (#[trigger] u.at(r, n0 + k)).value() == u2.at(r2, k).value(),
        forall|k: int|
            0 <= k < n1 ==> (#[trigger] v.at(n0 + k, c)).value() == v2.at(k, c2).value(),
    ensures
        dot(u, v, r, c, n0 + n1) == dot(u, v, r, c, n0) + dot(u2, v2, r2, c2, n1),
    decreases n1,
{
    if n1 > 0 {
        lemma_dot_concat(u, v, r, c, u2, v2, r2, c2, n0, n1 - 1);
        let k = n1 - 1;
        assert(u.at(r, n0 + k).value() == u2.at(r2, k).value());
        assert(v.at(n0 + k, c).value() == v2.at(k, c2).value());
        assert(n0 + n1 - 1 == n0 + k);
    }
}

/// Sums of products over entries of equal value are equal.
pub proof fn lemma_dot_equal<T: Numeric>(
    u: MatrixView<T>,
    v: MatrixView<T>,
    r: int,
    c: int,
    u2: MatrixView<T>,
    v2: MatrixView<T>,
    r2: int,
    c2: int,
    n: int,
)
    requires
        0 <= n,
        forall|k: int| 0 <= k < n ==> (#[trigger] u.at(r, k)).value() == u2.at(r2, k).value(),
        forall|k: int| 0 <= k < n ==> (#[trigger] v.at(k, c)).value() == v2.at(k, c2).value(),
    ensures
        dot(u, v, r, c, n) == dot(u2, v2, r2, c2, n),
    decreases n,
{
    if n > 0 {
        lemma_dot_equal(u, v, r, c, u2, v2, r2, c2, n - 1);
        assert(u.at(r, n - 1).value() == u2.at(r2, n - 1).value());
        assert(v.at(n - 1, c).value() == v2.at(n - 1, c2).value());
    }
}

/// Terms with a zero factor add nothing.
pub proof fn lemma_dot_zero_tail<T: Numeric>(
    u: MatrixView<T>,
    v: MatrixView<T>,
    r: int,
    c: int,
    n0: int,
    n: int,
)
    requires
        0 <= n0 <= n,
        forall|k: int| n0 <= k < n ==> (#[trigger] u.at(r, k)).value() == 0,
    ensures
        dot(u, v, r, c, n) == dot(u, v, r, c, n0),
    decreases n - n0,
{
    if n > n0 {
        lemma_dot_zero_tail(u, v, r, c, n0, n - 1);
        assert(u.at(r, n - 1).value() == 0);
        assert(0 * v.at(n - 1, c).value() == 0);
    }
}

/// The sum of products is linear in its left factor, modulo `m`: where the entries of
/// `u` are congruent to those of `u1` plus `s` times those of `u2`, the sum of products
/// of `u` and `v` is congruent to the same combination of the two sums of products.
pub proof fn lemma_dot_left<T: Numeric>(
    u: MatrixView<T>,
    u1: MatrixView<T>,
    u2: MatrixView<T>,
    s: int,
    v: MatrixView<T>,
    r: int,
    c: int,
    n: int,
    m: int,
)
    requires
        m > 0,
        0 <= n,
        forall|k: int|
            0 <= k < n ==> (#[trigger] u.at(r, k)).value() % m == (u1.at(r, k).value() + s
                * u2.at(r, k).value()) % m,
    ensures
        dot(u, v, r, c, n) % m == (dot(u1, v, r, c, n) + s * dot(u2, v, r, c, n)) % m,
    decreases n,
{
    if n > 0 {
        let k = n - 1;
        lemma_dot_left(u, u1, u2, s, v, r, c, k, m);
        let x = u.at(r, k).value();
        let x1 = u1.at(r, k).value();
        let x2 = u2.at(r, k).value();
        let y = v.at(k, c).value();
        let d1 = dot(u1, v, r, c, k);
        let d2 = dot(u2, v, r, c, k);
        let t = x2 * y;
        lemma_residue_product(x, x1 + s * x2, y, y, m);
        assert((x1 + s * x2) * y == x1 * y + s * t) by (nonlinear_arith)
            requires
                t == x2 * y,
        ;
        lemma_residue_sum(dot(u, v, r, c, k), d1 + s * d2, x * y, x1 * y + s * t, m);
        assert(s * (d2 + t) == s * d2 + s * t) by (nonlinear_arith);
    }
}

/// The sum of products is linear in its right factor, modulo `m`.
pub proof fn lemma_dot_right<T: Numeric>(
    u: MatrixView<T>,
    v: MatrixView<T>,
    v1: MatrixView<T>,
    v2: MatrixView<T>,
    s: int,
    r: int,
    c: int,
    n: int,
    m: int,
)
    requires
        m > 0,
        0 <= n,
        forall|k: int|
            0 <= k < n ==> (#[trigger] v.at(k, c)).value() % m == (v1.at(k, c).value() + s
                * v2.at(k, c).value()) % m,
    ensures
        dot(u, v, r, c, n) % m == (dot(u, v1, r, c, n) + s * dot(u, v2, r, c, n)) % m,
    decreases n,
{
    if n > 0 {
        let k = n - 1;
        lemma_dot_right(u, v, v1, v2, s, r, c, k, m);
        let x = u.at(r, k).value();
        let y = v.at(k, c).value();
        let y1 = v1.at(k, c).value();
        let y2 = v2.at(k, c).value();
        let d1 = dot(u, v1, r, c, k);
        let d2 = dot(u, v2, r, c, k);
        let t = x * y2;
        lemma_residue_product(x, x, y, y1 + s * y2, m);
        assert(x * (y1 + s * y2) == x * y1 + s * t) by (nonlinear_arith)
            requires
                t == x * y2,
        ;
        lemma_residue_sum(dot(u, v, r, c, k), d1 + s * d2, x * y, x * y1 + s * t, m);
        assert(s * (d2 + t) == s * d2 + s * t) by (nonlinear_arith);
    }
}

} // verus!
