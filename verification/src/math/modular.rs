//! Residues of integers in a fixed window: the model of wrapping machine arithmetic.
//!
//! A machine integer type holds the integers of a window `[lo, lo + m)`. Its wrapping
//! operations compute in the integers and then take the one representative of the
//! result, modulo `m`, that lies in the window.

use vstd::arithmetic::div_mod::{
    lemma_add_mod_noop, lemma_add_mod_noop_right, lemma_fundamental_div_mod, lemma_mod_bound,
    lemma_mod_equivalence, lemma_mul_mod_noop, lemma_small_mod, lemma_sub_mod_noop,
};
use vstd::prelude::*;

verus! {

/// The representative of `x` modulo `m` that lies in the window `[lo, lo + m)`.
pub open spec fn wrap(x: int, lo: int, m: int) -> int {
    lo + (x - lo) % m
}

/// `wrap` lands in the window.
pub proof fn lemma_wrap_in_window(x: int, lo: int, m: int)
    requires
        m > 0,
    ensures
        lo <= wrap(x, lo, m) < lo + m,
{
    lemma_mod_bound(x - lo, m);
}

/// `wrap` keeps the residue modulo `m`.
pub proof fn lemma_wrap_residue(x: int, lo: int, m: int)
    requires
        m > 0,
    ensures
        wrap(x, lo, m) % m == x % m,
{
    lemma_add_mod_noop_right(lo, x - lo, m);
}

/// A multiple of `m` strictly between `-m` and `m` is zero.
pub proof fn lemma_small_multiple_is_zero(d: int, m: int)
    requires
        m > 0,
        -m < d < m,
        d % m == 0,
    ensures
        d == 0,
{
    lemma_fundamental_div_mod(d, m);
    let q = d / m;
    assert(d == m * q);
    if q >= 1 {
        assert(m * q >= m) by (nonlinear_arith)
            requires
                m > 0,
                q >= 1,
        ;
    } else if q <= -1 {
        assert(m * q <= -m) by (nonlinear_arith)
            requires
                m > 0,
                q <= -1,
        ;
    } else {
        assert(m * q == 0) by (nonlinear_arith)
            requires
                q == 0,
        ;
    }
}

/// The window holds exactly one representative of each residue.
pub proof fn lemma_wrap_unique(x: int, r: int, lo: int, m: int)
    requires
        m > 0,
        lo <= r < lo + m,
        r % m == x % m,
    ensures
        r == wrap(x, lo, m),
{
    let w = wrap(x, lo, m);
    lemma_wrap_in_window(x, lo, m);
    lemma_wrap_residue(x, lo, m);
    lemma_mod_equivalence(r, w, m);
    lemma_small_multiple_is_zero(r - w, m);
}

/// An integer of the window is its own representative.
pub proof fn lemma_wrap_fixed(x: int, lo: int, m: int)
    requires
        m > 0,
        lo <= x < lo + m,
    ensures
        wrap(x, lo, m) == x,
{
    lemma_small_mod((x - lo) as nat, m as nat);
}

/// One window above: the representative is `x - m`.
pub proof fn lemma_wrap_above(x: int, lo: int, m: int)
    requires
        m > 0,
        lo + m <= x < lo + 2 * m,
    ensures
        wrap(x, lo, m) == x - m,
{
    vstd::arithmetic::div_mod::lemma_mod_sub_multiples_vanish(x, m);
    assert((x - m) % m == x % m) by {
        assert(-m + x == x - m);
    }
    lemma_wrap_unique(x, x - m, lo, m);
}

/// One window below: the representative is `x + m`.
pub proof fn lemma_wrap_below(x: int, lo: int, m: int)
    requires
        m > 0,
        lo - m <= x < lo,
    ensures
        wrap(x, lo, m) == x + m,
{
    vstd::arithmetic::div_mod::lemma_mod_add_multiples_vanish(x, m);
    assert((x + m) % m == x % m) by {
        assert(m + x == x + m);
    }
    lemma_wrap_unique(x, x + m, lo, m);
}

/// Integers with the same residue have the same representative.
pub proof fn lemma_wrap_congruent(x: int, y: int, lo: int, m: int)
    requires
        m > 0,
        x % m == y % m,
    ensures
        wrap(x, lo, m) == wrap(y, lo, m),
{
    lemma_wrap_in_window(x, lo, m);
    lemma_wrap_residue(x, lo, m);
    lemma_wrap_unique(y, wrap(x, lo, m), lo, m);
}

/// Sums of congruent integers are congruent.
pub proof fn lemma_residue_sum(x1: int, x2: int, y1: int, y2: int, m: int)
    requires
        m > 0,
        x1 % m == x2 % m,
        y1 % m == y2 % m,
    ensures
        (x1 + y1) % m == (x2 + y2) % m,
{
    lemma_add_mod_noop(x1, y1, m);
    lemma_add_mod_noop(x2, y2, m);
}

/// Differences of congruent integers are congruent.
pub proof fn lemma_residue_difference(x1: int, x2: int, y1: int, y2: int, m: int)
    requires
        m > 0,
        x1 % m == x2 % m,
        y1 % m == y2 % m,
    ensures
        (x1 - y1) % m == (x2 - y2) % m,
{
    lemma_sub_mod_noop(x1, y1, m);
    lemma_sub_mod_noop(x2, y2, m);
}

/// Products of congruent integers are congruent.
pub proof fn lemma_residue_product(x1: int, x2: int, y1: int, y2: int, m: int)
    requires
        m > 0,
        x1 % m == x2 % m,
        y1 % m == y2 % m,
    ensures
        (x1 * y1) % m == (x2 * y2) % m,
{
    lemma_mul_mod_noop(x1, y1, m);
    lemma_mul_mod_noop(x2, y2, m);
}

} // verus!
