//! Powers of two: the test, and rounding up to the next one.

use vstd::arithmetic::power2::is_pow2;
use vstd::prelude::*;

verus! {

/// The least power of two that is at least `n`.
pub open spec fn next_pow2(n: int) -> int
    decreases n,
{
    if n <= 1 {
        1
    } else {
        2 * next_pow2((n + 1) / 2)
    }
}

/// `next_pow2(n)` is a power of two, at least `n`, and below `2 * n` for positive `n`.
pub proof fn lemma_next_pow2(n: int)
    ensures
        is_pow2(next_pow2(n)),
        next_pow2(n) >= n,
        next_pow2(n) >= 1,
        n >= 1 ==> next_pow2(n) < 2 * n,
    decreases n,
{
    reveal_with_fuel(is_pow2, 2);
    if n > 1 {
        lemma_next_pow2((n + 1) / 2);
    }
}

/// No power of two lies between `n` and `next_pow2(n)`.
pub proof fn lemma_next_pow2_least(n: int, p: int)
    requires
        is_pow2(p),
        p >= n,
    ensures
        next_pow2(n) <= p,
    decreases n,
{
    reveal_with_fuel(is_pow2, 2);
    if n > 1 {
        lemma_next_pow2_least((n + 1) / 2, p / 2);
    }
}

/// A power of two is its own rounding.
pub proof fn lemma_next_pow2_fixed(p: int)
    requires
        is_pow2(p),
    ensures
        next_pow2(p) == p,
{
    lemma_next_pow2(p);
    lemma_next_pow2_least(p, p);
}

/// A power of two is at least 1.
pub proof fn lemma_pow2_positive(p: int)
    requires
        is_pow2(p),
    ensures
        p >= 1,
{
    reveal_with_fuel(is_pow2, 1);
}

/// A power of two above 1 is even, and its half is a power of two.
pub proof fn lemma_pow2_half(p: int)
    requires
        is_pow2(p),
        p > 1,
    ensures
        p % 2 == 0,
        is_pow2(p / 2),
        p / 2 >= 1,
{
    reveal_with_fuel(is_pow2, 2);
}

/// Whether `n` is a power of two.
pub fn is_power_of_two(n: usize) -> (r: bool)
    ensures
        r == is_pow2(n as int),
{
    proof {
        reveal_with_fuel(is_pow2, 2);
    }
    if n == 0 {
        return false;
    }
    let mut k: usize = n;
    while k % 2 == 0
        invariant
            k > 0,
            is_pow2(k as int) == is_pow2(n as int),
        decreases k,
    {
        proof {
            reveal_with_fuel(is_pow2, 2);
        }
        k = k / 2;
    }
    proof {
        reveal_with_fuel(is_pow2, 2);
    }
    k == 1
}

/// Of two powers of two the larger is at least twice the smaller.
pub proof fn lemma_pow2_gap(p: int, q: int)
    requires
        is_pow2(p),
        is_pow2(q),
        p < q,
    ensures
        2 * p <= q,
    decreases q,
{
    reveal_with_fuel(is_pow2, 2);
    if p > 1 {
        lemma_pow2_gap(p / 2, q / 2);
    }
}

/// The least power of two that is at least `n`.
pub fn next_power_of_two(n: usize) -> (r: usize)
    requires
        next_pow2(n as int) <= usize::MAX,
    ensures
        r == next_pow2(n as int),
{
    proof {
        reveal_with_fuel(is_pow2, 2);
        lemma_next_pow2(n as int);
    }
    let mut p: usize = 1;
    while p < n
        invariant
            is_pow2(p as int),
            p <= next_pow2(n as int) <= usize::MAX,
            is_pow2(next_pow2(n as int)),
            next_pow2(n as int) >= n,
        decreases next_pow2(n as int) - p,
    {
        proof {
            lemma_pow2_gap(p as int, next_pow2(n as int));
            reveal_with_fuel(is_pow2, 2);
        }
        p = p * 2;
    }
    proof {
        lemma_next_pow2_least(n as int, p as int);
    }
    p
}

} // verus!
