//! Products of 2 by 2, 3 by 3 and 4 by 4 matrices through lane groups.
//!
//! The entries of both operands are gathered into wide lane groups so that one
//! lane-wise multiplication yields every partial product of the result. The partial
//! products of each entry are then regrouped and added lane-wise, down to one lane
//! for each entry.

use super::lanes::{lanewise_product, lanewise_sum, LaneGroup, Lanes};
use super::matrix::Matrix;
use super::model::dot;
use super::numeric::{elem_product, elem_sum, lemma_sum_of_reduced, reduce, Numeric};
use vstd::prelude::*;

verus! {

/// The sum `(x0 + x1) + x2` of three products of elements, as one reduced integer.
pub proof fn lemma_sum_of_three<T: Numeric>(a0: T, b0: T, a1: T, b1: T, a2: T, b2: T)
    ensures
        elem_sum(elem_sum(elem_product(a0, b0), elem_product(a1, b1)), elem_product(a2, b2))
            == reduce::<T>(
            0 + a0.value() * b0.value() + a1.value() * b1.value() + a2.value() * b2.value(),
        ),
{
    let x0 = a0.value() * b0.value();
    let x1 = a1.value() * b1.value();
    let x2 = a2.value() * b2.value();
    lemma_sum_of_reduced::<T>(x0, x1);
    lemma_sum_of_reduced::<T>(x0 + x1, x2);
}

/// The sum `(x0 + x1) + (x2 + x3)` of four products of elements, as one reduced
/// integer.
pub proof fn lemma_sum_of_four<T: Numeric>(
    a0: T,
    b0: T,
    a1: T,
    b1: T,
    a2: T,
    b2: T,
    a3: T,
    b3: T,
)
    ensures
        elem_sum(
            elem_sum(elem_product(a0, b0), elem_product(a1, b1)),
            elem_sum(elem_product(a2, b2), elem_product(a3, b3)),
        ) == reduce::<T>(
            0 + a0.value() * b0.value() + a1.value() * b1.value() + a2.value() * b2.value()
                + a3.value() * b3.value(),
        ),
{
    let x0 = a0.value() * b0.value();
    let x1 = a1.value() * b1.value();
    let x2 = a2.value() * b2.value();
    let x3 = a3.value() * b3.value();
    lemma_sum_of_reduced::<T>(x0, x1);
    lemma_sum_of_reduced::<T>(x2, x3);
    lemma_sum_of_reduced::<T>(x0 + x1, x2 + x3);
}

/// The sum `x0 + x1` of two products of elements, as one reduced integer.
pub proof fn lemma_sum_of_two<T: Numeric>(a0: T, b0: T, a1: T, b1: T)
    ensures
        elem_sum(elem_product(a0, b0), elem_product(a1, b1)) == reduce::<T>(
            0 + a0.value() * b0.value() + a1.value() * b1.value(),
        ),
{
    lemma_sum_of_reduced::<T>(a0.value() * b0.value(), a1.value() * b1.value());
}

/// The binding of an element type to its lane groups, and the fixed-size products
/// built on them.
///
/// An implementation names the lane group of each width and says how an array of
/// elements enters and leaves it. The lane-wise operations and the three products are
/// the same for every element type.
pub trait MatrixSimd: Numeric {
    /// The lane group of width 1.
    type Simd1: LaneGroup<Self>;

    /// The lane group of width 2.
    type Simd2: LaneGroup<Self>;

    /// The lane group of width 4.
    type Simd4: LaneGroup<Self>;

    /// The lane group of width 8.
    type Simd8: LaneGroup<Self>;

    /// The lane group of width 16.
    type Simd16: LaneGroup<Self>;

    /// The lane group of width 32.
    type Simd32: LaneGroup<Self>;

    /// The lane group of width 64.
    type Simd64: LaneGroup<Self>;

    /// The lane group that holds the 1 element of `arr`.
    fn simd1_from_arr(arr: [Self; 1]) -> (r: Self::Simd1)
        ensures
            r.lanes() == arr@,
    ;

    /// The lane group that holds the 2 elements of `arr`.
    fn simd2_from_arr(arr: [Self; 2]) -> (r: Self::Simd2)
        ensures
            r.lanes() == arr@,
    ;

    /// The lane group that holds the 4 elements of `arr`.
    fn simd4_from_arr(arr: [Self; 4]) -> (r: Self::Simd4)
        ensures
            r.lanes() == arr@,
    ;

    /// The lane group that holds the 8 elements of `arr`.
    fn simd8_from_arr(arr: [Self; 8]) -> (r: Self::Simd8)
        ensures
            r.lanes() == arr@,
    ;

    /// The lane group that holds the 16 elements of `arr`.
    fn simd16_from_arr(arr: [Self; 16]) -> (r: Self::Simd16)
        ensures
            r.lanes() == arr@,
    ;

    /// The lane group that holds the 32 elements of `arr`.
    fn simd32_from_arr(arr: [Self; 32]) -> (r: Self::Simd32)
        ensures
            r.lanes() == arr@,
    ;

    /// The lane group that holds the 64 elements of `arr`.
    fn simd64_from_arr(arr: [Self; 64]) -> (r: Self::Simd64)
        ensures
            r.lanes() == arr@,
    ;

    /// The 1 element of a lane group.
    fn simd1_to_arr(simd: Self::Simd1) -> (r: [Self; 1])
        ensures
            r@ == simd.lanes(),
    ;

    /// The 2 elements of a lane group.
    fn simd2_to_arr(simd: Self::Simd2) -> (r: [Self; 2])
        ensures
            r@ == simd.lanes(),
    ;

    /// The 4 elements of a lane group.
    fn simd4_to_arr(simd: Self::Simd4) -> (r: [Self; 4])
        ensures
            r@ == simd.lanes(),
    ;

    /// The 8 elements of a lane group.
    fn simd8_to_arr(simd: Self::Simd8) -> (r: [Self; 8])
        ensures
            r@ == simd.lanes(),
    ;

    /// The 16 elements of a lane group.
    fn simd16_to_arr(simd: Self::Simd16) -> (r: [Self; 16])
        ensures
            r@ == simd.lanes(),
    ;

    /// The 32 elements of a lane group.
    fn simd32_to_arr(simd: Self::Simd32) -> (r: [Self; 32])
        ensures
            r@ == simd.lanes(),
    ;

    /// The 64 elements of a lane group.
    fn simd64_to_arr(simd: Self::Simd64) -> (r: [Self; 64])
        ensures
            r@ == simd.lanes(),
    ;

    /// Lane-wise product at width 1.
    fn simd1_mul(a: Self::Simd1, b: Self::Simd1) -> (r: Self::Simd1)
        ensures
            r.lanes() == lanewise_product(a.lanes(), b.lanes()),
    {
        a.lane_mul(b)
    }

    /// Lane-wise product at width 2.
    fn simd2_mul(a: Self::Simd2, b: Self::Simd2) -> (r: Self::Simd2)
        ensures
            r.lanes() == lanewise_product(a.lanes(), b.lanes()),
    {
        a.lane_mul(b)
    }

    /// Lane-wise product at width 4.
    fn simd4_mul(a: Self::Simd4, b: Self::Simd4) -> (r: Self::Simd4)
        ensures
            r.lanes() == lanewise_product(a.lanes(), b.lanes()),
    {
        a.lane_mul(b)
    }

    /// Lane-wise product at width 8.
    fn simd8_mul(a: Self::Simd8, b: Self::Simd8) -> (r: Self::Simd8)
        ensures
            r.lanes() == lanewise_product(a.lanes(), b.lanes()),
    {
        a.lane_mul(b)
    }

    /// Lane-wise product at width 16.
    fn simd16_mul(a: Self::Simd16, b: Self::Simd16) -> (r: Self::Simd16)
        ensures
            r.lanes() == lanewise_product(a.lanes(), b.lanes()),
    {
        a.lane_mul(b)
    }

    /// Lane-wise product at width 32.
    fn simd32_mul(a: Self::Simd32, b: Self::Simd32) -> (r: Self::Simd32)
        ensures
            r.lanes() == lanewise_product(a.lanes(), b.lanes()),
    {
        a.lane_mul(b)
    }

    /// Lane-wise product at width 64.
    fn simd64_mul(a: Self::Simd64, b: Self::Simd64) -> (r: Self::Simd64)
        ensures
            r.lanes() == lanewise_product(a.lanes(), b.lanes()),
    {
        a.lane_mul(b)
    }

    /// Lane-wise sum at width 1.
    fn simd1_add(a: Self::Simd1, b: Self::Simd1) -> (r: Self::Simd1)
        ensures
            r.lanes() == lanewise_sum(a.lanes(), b.lanes()),
    {
        a.lane_add(b)
    }

    /// Lane-wise sum at width 2.
    fn simd2_add(a: Self::Simd2, b: Self::Simd2) -> (r: Self::Simd2)
        ensures
            r.lanes() == lanewise_sum(a.lanes(), b.lanes()),
    {
        a.lane_add(b)
    }

    /// Lane-wise sum at width 4.
    fn simd4_add(a: Self::Simd4, b: Self::Simd4) -> (r: Self::Simd4)
        ensures
            r.lanes() == lanewise_sum(a.lanes(), b.lanes()),
    {
        a.lane_add(b)
    }

    /// Lane-wise sum at width 8.
    fn simd8_add(a: Self::Simd8, b: Self::Simd8) -> (r: Self::Simd8)
        ensures
            r.lanes() == lanewise_sum(a.lanes(), b.lanes()),
    {
        a.lane_add(b)
    }

    /// Lane-wise sum at width 16.
    fn simd16_add(a: Self::Simd16, b: Self::Simd16) -> (r: Self::Simd16)
        ensures
            r.lanes() == lanewise_sum(a.lanes(), b.lanes()),
    {
        a.lane_add(b)
    }

    /// Lane-wise sum at width 32.
    fn simd32_add(a: Self::Simd32, b: Self::Simd32) -> (r: Self::Simd32)
        ensures
            r.lanes() == lanewise_sum(a.lanes(), b.lanes()),
    {
        a.lane_add(b)
    }

    /// Lane-wise sum at width 64.
    fn simd64_add(a: Self::Simd64, b: Self::Simd64) -> (r: Self::Simd64)
        ensures
            r.lanes() == lanewise_sum(a.lanes(), b.lanes()),
    {
        a.lane_add(b)
    }

    /// The product of two 2 by 2 matrices: eight partial products in one lane-wise
    /// multiplication, then one lane-wise addition of four pairs.
    fn simd_2x2_mul(a: &Matrix<Self>, b: &Matrix<Self>) -> (r: Matrix<Self>)
        requires
            a@.rows == 2 && a@.cols == 2,
            b@.rows == 2 && b@.cols == 2,
        ensures
            r@.wf(),
            r@ == a@.product(b@),
    {
        let ad = a.data();
        let bd = b.data();
        let a_data = [ad[0], ad[0], ad[2], ad[2], ad[1], ad[1], ad[3], ad[3]];
        let b_data = [bd[0], bd[1], bd[0], bd[1], bd[2], bd[3], bd[2], bd[3]];
        let a_simd = Self::simd8_from_arr(a_data);
        let b_simd = Self::simd8_from_arr(b_data);
        let p = Self::simd8_to_arr(Self::simd8_mul(a_simd, b_simd));
        let sum_a_simd = Self::simd4_from_arr([p[0], p[1], p[2], p[3]]);
        let sum_b_simd = Self::simd4_from_arr([p[4], p[5], p[6], p[7]]);
        let sums = Self::simd4_to_arr(Self::simd4_add(sum_a_simd, sum_b_simd));
        let mut data: Vec<Self> = Vec::with_capacity(4);
        let mut n: usize = 0;
        while n < 4
            invariant
                n <= 4,
                data.len() == n,
                forall|t: int| 0 <= t < n ==> data[t] == sums@[t],
            decreases 4 - n,
        {
            data.push(sums[n]);
            n += 1;
        }
        proof {
            reveal_with_fuel(dot, 3);
            assert forall|t: int| 0 <= t < 4 implies data[t] == a@.product(b@).data[t] by {
                let i = t / 2;
                let j = t % 2;
                assert(sums@[t] == elem_sum(p@[t], p@[t + 4]));
                assert(p@[t] == elem_product(a_data@[t], b_data@[t]));
                assert(p@[t + 4] == elem_product(a_data@[t + 4], b_data@[t + 4]));
                assert(a_data@[t] == a@.at(i, 0) && b_data@[t] == b@.at(0, j));
                assert(a_data@[t + 4] == a@.at(i, 1) && b_data@[t + 4] == b@.at(1, j));
                lemma_sum_of_two(a@.at(i, 0), b@.at(0, j), a@.at(i, 1), b@.at(1, j));
            }
            assert(data@ =~= a@.product(b@).data);
        }
        let res = Matrix::from_vec(2, 2, data);
        res.unwrap()
    }

    /// The product of two 3 by 3 matrices: 27 partial products in the first 27 of 32
    /// lanes, then two lane-wise additions at width 16 that fold the three partial
    /// products of each entry. The lanes left over carry filler that no entry reads.
    fn simd_3x3_mul(a: &Matrix<Self>, b: &Matrix<Self>) -> (r: Matrix<Self>)
        requires
            a@.rows == 3 && a@.cols == 3,
            b@.rows == 3 && b@.cols == 3,
        ensures
            r@.wf(),
            r@ == a@.product(b@),
    {
        let ad = a.data();
        let bd = b.data();
        let zero = Self::zero();
        let mut a_data = [zero;32];
        let mut b_data = [zero;32];
        let mut l: usize = 0;
        while l < 32
            invariant
                l <= 32,
                ad@.len() == 9,
                bd@.len() == 9,
                forall|t: int|
                    0 <= t < l && t < 27 ==> a_data@[t] == ad@[3 * (t / 9) + t % 3] && b_data@[t]
                        == bd@[3 * (t % 3) + (t / 3) % 3],
            decreases 32 - l,
        {
            if l < 27 {
                a_data[l] = ad[3 * (l / 9) + l % 3];
                b_data[l] = bd[3 * (l % 3) + (l / 3) % 3];
            } else {
                a_data[l] = ad[l % 3];
                b_data[l] = bd[0];
            }
            l += 1;
        }
        let a_simd = Self::simd32_from_arr(a_data);
        let b_simd = Self::simd32_from_arr(b_data);
        let p = Self::simd32_to_arr(Self::simd32_mul(a_simd, b_simd));
        let mut sum_1a = [zero;16];
        let mut sum_1b = [zero;16];
        let mut sum_2b = [zero;16];
        let mut m: usize = 0;
        while m < 16
            invariant
                m <= 16,
                forall|t: int|
                    0 <= t < m && t < 9 ==> sum_1a@[t] == p@[3 * t] && sum_1b@[t] == p@[3 * t + 1]
                        && sum_2b@[t] == p@[3 * t + 2],
            decreases 16 - m,
        {
            if m < 9 {
                sum_1a[m] = p[3 * m];
                sum_1b[m] = p[3 * m + 1];
                sum_2b[m] = p[3 * m + 2];
            } else {
                sum_1a[m] = p[0];
                sum_1b[m] = p[1];
                sum_2b[m] = p[2];
            }
            m += 1;
        }
        let s = Self::simd16_to_arr(
            Self::simd16_add(Self::simd16_from_arr(sum_1a), Self::simd16_from_arr(sum_1b)),
        );
        let mut sum_2a = s;
        let mut f: usize = 9;
        while f < 16
            invariant
                9 <= f <= 16,
                forall|t: int| 0 <= t < 9 ==> sum_2a@[t] == s@[t],
            decreases 16 - f,
        {
            sum_2a[f] = s[0];
            f += 1;
        }
        let sums = Self::simd16_to_arr(
            Self::simd16_add(Self::simd16_from_arr(sum_2a), Self::simd16_from_arr(sum_2b)),
        );
        let mut data: Vec<Self> = Vec::with_capacity(9);
        let mut n: usize = 0;
        while n < 9
            invariant
                n <= 9,
                data.len() == n,
                forall|t: int| 0 <= t < n ==> data[t] == sums@[t],
            decreases 9 - n,
        {
            data.push(sums[n]);
            n += 1;
        }
        proof {
            reveal_with_fuel(dot, 4);
            assert forall|t: int| 0 <= t < 9 implies data[t] == a@.product(b@).data[t] by {
                let i = t / 3;
                let j = t % 3;
                assert(sums@[t] == elem_sum(sum_2a@[t], sum_2b@[t]));
                assert(s@[t] == elem_sum(sum_1a@[t], sum_1b@[t]));
                assert(p@[3 * t] == elem_product(a_data@[3 * t], b_data@[3 * t]));
                assert(p@[3 * t + 1] == elem_product(a_data@[3 * t + 1], b_data@[3 * t + 1]));
                assert(p@[3 * t + 2] == elem_product(a_data@[3 * t + 2], b_data@[3 * t + 2]));
                assert(a_data@[3 * t] == a@.at(i, 0) && b_data@[3 * t] == b@.at(0, j));
                assert(a_data@[3 * t + 1] == a@.at(i, 1) && b_data@[3 * t + 1] == b@.at(1, j));
                assert(a_data@[3 * t + 2] == a@.at(i, 2) && b_data@[3 * t + 2] == b@.at(2, j));
                lemma_sum_of_three(
                    a@.at(i, 0),
                    b@.at(0, j),
                    a@.at(i, 1),
                    b@.at(1, j),
                    a@.at(i, 2),
                    b@.at(2, j),
                );
            }
            assert(data@ =~= a@.product(b@).data);
        }
        let res = Matrix::from_vec(3, 3, data);
        res.unwrap()
    }

    /// The product of two 4 by 4 matrices: 64 partial products in one lane-wise
    /// multiplication, then a lane-wise addition at width 32 and one at width 16 that
    /// fold the four partial products of each entry in pairs.
    fn simd_4x4_mul(a: &Matrix<Self>, b: &Matrix<Self>) -> (r: Matrix<Self>)
        requires
            a@.rows == 4 && a@.cols == 4,
            b@.rows == 4 && b@.cols == 4,
        ensures
            r@.wf(),
            r@ == a@.product(b@),
    {
        let ad = a.data();
        let bd = b.data();
        let zero = Self::zero();
        let mut a_data = [zero;64];
        let mut b_data = [zero;64];
        let mut l: usize = 0;
        while l < 64
            invariant
                l <= 64,
                ad@.len() == 16,
                bd@.len() == 16,
                forall|t: int|
                    0 <= t < l ==> a_data@[t] == ad@[4 * (t / 16) + t % 4] && b_data@[t] == bd@[4
                        * (t % 4) + (t / 4) % 4],
            decreases 64 - l,
        {
            a_data[l] = ad[4 * (l / 16) + l % 4];
            b_data[l] = bd[4 * (l % 4) + (l / 4) % 4];
            l += 1;
        }
        let a_simd = Self::simd64_from_arr(a_data);
        let b_simd = Self::simd64_from_arr(b_data);
        let p = Self::simd64_to_arr(Self::simd64_mul(a_simd, b_simd));
        let mut sum_a1 = [zero;32];
        let mut sum_b1 = [zero;32];
        let mut m: usize = 0;
        while m < 32
            invariant
                m <= 32,
                forall|t: int|
                    0 <= t < m ==> sum_a1@[t] == p@[2 * t] && sum_b1@[t] == p@[2 * t + 1],
            decreases 32 - m,
        {
            sum_a1[m] = p[2 * m];
            sum_b1[m] = p[2 * m + 1];
            m += 1;
        }
        let s = Self::simd32_to_arr(
            Self::simd32_add(Self::simd32_from_arr(sum_a1), Self::simd32_from_arr(sum_b1)),
        );
        let mut sum_a2 = [zero;16];
        let mut sum_b2 = [zero;16];
        let mut f: usize = 0;
        while f < 16
            invariant
                f <= 16,
                forall|t: int|
                    0 <= t < f ==> sum_a2@[t] == s@[2 * t] && sum_b2@[t] == s@[2 * t + 1],
            decreases 16 - f,
        {
            sum_a2[f] = s[2 * f];
            sum_b2[f] = s[2 * f + 1];
            f += 1;
        }
        let sums = Self::simd16_to_arr(
            Self::simd16_add(Self::simd16_from_arr(sum_a2), Self::simd16_from_arr(sum_b2)),
        );
        let mut data: Vec<Self> = Vec::with_capacity(16);
        let mut n: usize = 0;
        while n < 16
            invariant
                n <= 16,
                data.len() == n,
                forall|t: int| 0 <= t < n ==> data[t] == sums@[t],
            decreases 16 - n,
        {
            data.push(sums[n]);
            n += 1;
        }
        proof {
            reveal_with_fuel(dot, 5);
            assert forall|t: int| 0 <= t < 16 implies data[t] == a@.product(b@).data[t] by {
                let i = t / 4;
                let j = t % 4;
                assert(sums@[t] == elem_sum(sum_a2@[t], sum_b2@[t]));
                assert(s@[2 * t] == elem_sum(sum_a1@[2 * t], sum_b1@[2 * t]));
                assert(s@[2 * t + 1] == elem_sum(sum_a1@[2 * t + 1], sum_b1@[2 * t + 1]));
                assert(p@[4 * t] == elem_product(a_data@[4 * t], b_data@[4 * t]));
                assert(p@[4 * t + 1] == elem_product(a_data@[4 * t + 1], b_data@[4 * t + 1]));
                assert(p@[4 * t + 2] == elem_product(a_data@[4 * t + 2], b_data@[4 * t + 2]));
                assert(p@[4 * t + 3] == elem_product(a_data@[4 * t + 3], b_data@[4 * t + 3]));
                assert(a_data@[4 * t] == a@.at(i, 0) && b_data@[4 * t] == b@.at(0, j));
                assert(a_data@[4 * t + 1] == a@.at(i, 1) && b_data@[4 * t + 1] == b@.at(1, j));
                assert(a_data@[4 * t + 2] == a@.at(i, 2) && b_data@[4 * t + 2] == b@.at(2, j));
                assert(a_data@[4 * t + 3] == a@.at(i, 3) && b_data@[4 * t + 3] == b@.at(3, j));
                lemma_sum_of_four(
                    a@.at(i, 0),
                    b@.at(0, j),
                    a@.at(i, 1),
                    b@.at(1, j),
                    a@.at(i, 2),
                    b@.at(2, j),
                    a@.at(i, 3),
                    b@.at(3, j),
                );
            }
            assert(data@ =~= a@.product(b@).data);
        }
        let res = Matrix::from_vec(4, 4, data);
        res.unwrap()
    }
}

impl MatrixSimd for i8 {
    type Simd1 = Lanes<i8, 1>;

    type Simd2 = Lanes<i8, 2>;

    type Simd4 = Lanes<i8, 4>;

    type Simd8 = Lanes<i8, 8>;

    type Simd16 = Lanes<i8, 16>;

    type Simd32 = Lanes<i8, 32>;

    type Simd64 = Lanes<i8, 64>;

    fn simd1_from_arr(arr: [Self; 1]) -> (r: Self::Simd1) {
        Lanes::from_array(arr)
    }

    fn simd2_from_arr(arr: [Self; 2]) -> (r: Self::Simd2) {
        Lanes::from_array(arr)
    }

    fn simd4_from_arr(arr: [Self; 4]) -> (r: Self::Simd4) {
        Lanes::from_array(arr)
    }

    fn simd8_from_arr(arr: [Self; 8]) -> (r: Self::Simd8) {
        Lanes::from_array(arr)
    }

    fn simd16_from_arr(arr: [Self; 16]) -> (r: Self::Simd16) {
        Lanes::from_array(arr)
    }

    fn simd32_from_arr(arr: [Self; 32]) -> (r: Self::Simd32) {
        Lanes::from_array(arr)
    }

    fn simd64_from_arr(arr: [Self; 64]) -> (r: Self::Simd64) {
        Lanes::from_array(arr)
    }

    fn simd1_to_arr(simd: Self::Simd1) -> (r: [Self; 1]) {
        simd.to_array()
    }

    fn simd2_to_arr(simd: Self::Simd2) -> (r: [Self; 2]) {
        simd.to_array()
    }

    fn simd4_to_arr(simd: Self::Simd4) -> (r: [Self; 4]) {
        simd.to_array()
    }

    fn simd8_to_arr(simd: Self::Simd8) -> (r: [Self; 8]) {
        simd.to_array()
    }

    fn simd16_to_arr(simd: Self::Simd16) -> (r: [Self; 16]) {
        simd.to_array()
    }

    fn simd32_to_arr(simd: Self::Simd32) -> (r: [Self; 32]) {
        simd.to_array()
    }

    fn simd64_to_arr(simd: Self::Simd64) -> (r: [Self; 64]) {
        simd.to_array()
    }
}

impl MatrixSimd for i16 {
    type Simd1 = Lanes<i16, 1>;

    type Simd2 = Lanes<i16, 2>;

    type Simd4 = Lanes<i16, 4>;

    type Simd8 = Lanes<i16, 8>;

    type Simd16 = Lanes<i16, 16>;

    type Simd32 = Lanes<i16, 32>;

    type Simd64 = Lanes<i16, 64>;

    fn simd1_from_arr(arr: [Self; 1]) -> (r: Self::Simd1) {
        Lanes::from_array(arr)
    }

    fn simd2_from_arr(arr: [Self; 2]) -> (r: Self::Simd2) {
        Lanes::from_array(arr)
    }

    fn simd4_from_arr(arr: [Self; 4]) -> (r: Self::Simd4) {
        Lanes::from_array(arr)
    }

    fn simd8_from_arr(arr: [Self; 8]) -> (r: Self::Simd8) {
        Lanes::from_array(arr)
    }

    fn simd16_from_arr(arr: [Self; 16]) -> (r: Self::Simd16) {
        Lanes::from_array(arr)
    }

    fn simd32_from_arr(arr: [Self; 32]) -> (r: Self::Simd32) {
        Lanes::from_array(arr)
    }

    fn simd64_from_arr(arr: [Self; 64]) -> (r: Self::Simd64) {
        Lanes::from_array(arr)
    }

    fn simd1_to_arr(simd: Self::Simd1) -> (r: [Self; 1]) {
        simd.to_array()
    }

    fn simd2_to_arr(simd: Self::Simd2) -> (r: [Self; 2]) {
        simd.to_array()
    }

    fn simd4_to_arr(simd: Self::Simd4) -> (r: [Self; 4]) {
        simd.to_array()
    }

    fn simd8_to_arr(simd: Self::Simd8) -> (r: [Self; 8]) {
        simd.to_array()
    }

    fn simd16_to_arr(simd: Self::Simd16) -> (r: [Self; 16]) {
        simd.to_array()
    }

    fn simd32_to_arr(simd: Self::Simd32) -> (r: [Self; 32]) {
        simd.to_array()
    }

    fn simd64_to_arr(simd: Self::Simd64) -> (r: [Self; 64]) {
        simd.to_array()
    }
}

impl MatrixSimd for i32 {
    type Simd1 = Lanes<i32, 1>;

    type Simd2 = Lanes<i32, 2>;

    type Simd4 = Lanes<i32, 4>;

    type Simd8 = Lanes<i32, 8>;

    type Simd16 = Lanes<i32, 16>;

    type Simd32 = Lanes<i32, 32>;

    type Simd64 = Lanes<i32, 64>;

    fn simd1_from_arr(arr: [Self; 1]) -> (r: Self::Simd1) {
        Lanes::from_array(arr)
    }

    fn simd2_from_arr(arr: [Self; 2]) -> (r: Self::Simd2) {
        Lanes::from_array(arr)
    }

    fn simd4_from_arr(arr: [Self; 4]) -> (r: Self::Simd4) {
        Lanes::from_array(arr)
    }

    fn simd8_from_arr(arr: [Self; 8]) -> (r: Self::Simd8) {
        Lanes::from_array(arr)
    }

    fn simd16_from_arr(arr: [Self; 16]) -> (r: Self::Simd16) {
        Lanes::from_array(arr)
    }

    fn simd32_from_arr(arr: [Self; 32]) -> (r: Self::Simd32) {
        Lanes::from_array(arr)
    }

    fn simd64_from_arr(arr: [Self; 64]) -> (r: Self::Simd64) {
        Lanes::from_array(arr)
    }

    fn simd1_to_arr(simd: Self::Simd1) -> (r: [Self; 1]) {
        simd.to_array()
    }

    fn simd2_to_arr(simd: Self::Simd2) -> (r: [Self; 2]) {
        simd.to_array()
    }

    fn simd4_to_arr(simd: Self::Simd4) -> (r: [Self; 4]) {
        simd.to_array()
    }

    fn simd8_to_arr(simd: Self::Simd8) -> (r: [Self; 8]) {
        simd.to_array()
    }

    fn simd16_to_arr(simd: Self::Simd16) -> (r: [Self; 16]) {
        simd.to_array()
    }

    fn simd32_to_arr(simd: Self::Simd32) -> (r: [Self; 32]) {
        simd.to_array()
    }

    fn simd64_to_arr(simd: Self::Simd64) -> (r: [Self; 64]) {
        simd.to_array()
    }
}

impl MatrixSimd for i64 {
    type Simd1 = Lanes<i64, 1>;

    type Simd2 = Lanes<i64, 2>;

    type Simd4 = Lanes<i64, 4>;

    type Simd8 = Lanes<i64, 8>;

    type Simd16 = Lanes<i64, 16>;

    type Simd32 = Lanes<i64, 32>;

    type Simd64 = Lanes<i64, 64>;

    fn simd1_from_arr(arr: [Self; 1]) -> (r: Self::Simd1) {
        Lanes::from_array(arr)
    }

    fn simd2_from_arr(arr: [Self; 2]) -> (r: Self::Simd2) {
        Lanes::from_array(arr)
    }

    fn simd4_from_arr(arr: [Self; 4]) -> (r: Self::Simd4) {
        Lanes::from_array(arr)
    }

    fn simd8_from_arr(arr: [Self; 8]) -> (r: Self::Simd8) {
        Lanes::from_array(arr)
    }

    fn simd16_from_arr(arr: [Self; 16]) -> (r: Self::Simd16) {
        Lanes::from_array(arr)
    }

    fn simd32_from_arr(arr: [Self; 32]) -> (r: Self::Simd32) {
        Lanes::from_array(arr)
    }

    fn simd64_from_arr(arr: [Self; 64]) -> (r: Self::Simd64) {
        Lanes::from_array(arr)
    }

    fn simd1_to_arr(simd: Self::Simd1) -> (r: [Self; 1]) {
        simd.to_array()
    }

    fn simd2_to_arr(simd: Self::Simd2) -> (r: [Self; 2]) {
        simd.to_array()
    }

    fn simd4_to_arr(simd: Self::Simd4) -> (r: [Self; 4]) {
        simd.to_array()
    }

    fn simd8_to_arr(simd: Self::Simd8) -> (r: [Self; 8]) {
        simd.to_array()
    }

    fn simd16_to_arr(simd: Self::Simd16) -> (r: [Self; 16]) {
        simd.to_array()
    }

    fn simd32_to_arr(simd: Self::Simd32) -> (r: [Self; 32]) {
        simd.to_array()
    }

    fn simd64_to_arr(simd: Self::Simd64) -> (r: [Self; 64]) {
        simd.to_array()
    }
}

impl MatrixSimd for isize {
    type Simd1 = Lanes<isize, 1>;

    type Simd2 = Lanes<isize, 2>;

    type Simd4 = Lanes<isize, 4>;

    type Simd8 = Lanes<isize, 8>;

    type Simd16 = Lanes<isize, 16>;

    type Simd32 = Lanes<isize, 32>;

    type Simd64 = Lanes<isize, 64>;

    fn simd1_from_arr(arr: [Self; 1]) -> (r: Self::Simd1) {
        Lanes::from_array(arr)
    }

    fn simd2_from_arr(arr: [Self; 2]) -> (r: Self::Simd2) {
        Lanes::from_array(arr)
    }

    fn simd4_from_arr(arr: [Self; 4]) -> (r: Self::Simd4) {
        Lanes::from_array(arr)
    }

    fn simd8_from_arr(arr: [Self; 8]) -> (r: Self::Simd8) {
        Lanes::from_array(arr)
    }

    fn simd16_from_arr(arr: [Self; 16]) -> (r: Self::Simd16) {
        Lanes::from_array(arr)
    }

    fn simd32_from_arr(arr: [Self; 32]) -> (r: Self::Simd32) {
        Lanes::from_array(arr)
    }

    fn simd64_from_arr(arr: [Self; 64]) -> (r: Self::Simd64) {
        Lanes::from_array(arr)
    }

    fn simd1_to_arr(simd: Self::Simd1) -> (r: [Self; 1]) {
        simd.to_array()
    }

    fn simd2_to_arr(simd: Self::Simd2) -> (r: [Self; 2]) {
        simd.to_array()
    }

    fn simd4_to_arr(simd: Self::Simd4) -> (r: [Self; 4]) {
        simd.to_array()
    }

    fn simd8_to_arr(simd: Self::Simd8) -> (r: [Self; 8]) {
        simd.to_array()
    }

    fn simd16_to_arr(simd: Self::Simd16) -> (r: [Self; 16]) {
        simd.to_array()
    }

    fn simd32_to_arr(simd: Self::Simd32) -> (r: [Self; 32]) {
        simd.to_array()
    }

    fn simd64_to_arr(simd: Self::Simd64) -> (r: [Self; 64]) {
        simd.to_array()
    }
}

impl MatrixSimd for u8 {
    type Simd1 = Lanes<u8, 1>;

    type Simd2 = Lanes<u8, 2>;

    type Simd4 = Lanes<u8, 4>;

    type Simd8 = Lanes<u8, 8>;

    type Simd16 = Lanes<u8, 16>;

    type Simd32 = Lanes<u8, 32>;

    type Simd64 = Lanes<u8, 64>;

    fn simd1_from_arr(arr: [Self; 1]) -> (r: Self::Simd1) {
        Lanes::from_array(arr)
    }

    fn simd2_from_arr(arr: [Self; 2]) -> (r: Self::Simd2) {
        Lanes::from_array(arr)
    }

    fn simd4_from_arr(arr: [Self; 4]) -> (r: Self::Simd4) {
        Lanes::from_array(arr)
    }

    fn simd8_from_arr(arr: [Self; 8]) -> (r: Self::Simd8) {
        Lanes::from_array(arr)
    }

    fn simd16_from_arr(arr: [Self; 16]) -> (r: Self::Simd16) {
        Lanes::from_array(arr)
    }

    fn simd32_from_arr(arr: [Self; 32]) -> (r: Self::Simd32) {
        Lanes::from_array(arr)
    }

    fn simd64_from_arr(arr: [Self; 64]) -> (r: Self::Simd64) {
        Lanes::from_array(arr)
    }

    fn simd1_to_arr(simd: Self::Simd1) -> (r: [Self; 1]) {
        simd.to_array()
    }

    fn simd2_to_arr(simd: Self::Simd2) -> (r: [Self; 2]) {
        simd.to_array()
    }

    fn simd4_to_arr(simd: Self::Simd4) -> (r: [Self; 4]) {
        simd.to_array()
    }

    fn simd8_to_arr(simd: Self::Simd8) -> (r: [Self; 8]) {
        simd.to_array()
    }

    fn simd16_to_arr(simd: Self::Simd16) -> (r: [Self; 16]) {
        simd.to_array()
    }

    fn simd32_to_arr(simd: Self::Simd32) -> (r: [Self; 32]) {
        simd.to_array()
    }

    fn simd64_to_arr(simd: Self::Simd64) -> (r: [Self; 64]) {
        simd.to_array()
    }
}

impl MatrixSimd for u16 {
    type Simd1 = Lanes<u16, 1>;

    type Simd2 = Lanes<u16, 2>;

    type Simd4 = Lanes<u16, 4>;

    type Simd8 = Lanes<u16, 8>;

    type Simd16 = Lanes<u16, 16>;

    type Simd32 = Lanes<u16, 32>;

    type Simd64 = Lanes<u16, 64>;

    fn simd1_from_arr(arr: [Self; 1]) -> (r: Self::Simd1) {
        Lanes::from_array(arr)
    }

    fn simd2_from_arr(arr: [Self; 2]) -> (r: Self::Simd2) {
        Lanes::from_array(arr)
    }

    fn simd4_from_arr(arr: [Self; 4]) -> (r: Self::Simd4) {
        Lanes::from_array(arr)
    }

    fn simd8_from_arr(arr: [Self; 8]) -> (r: Self::Simd8) {
        Lanes::from_array(arr)
    }

    fn simd16_from_arr(arr: [Self; 16]) -> (r: Self::Simd16) {
        Lanes::from_array(arr)
    }

    fn simd32_from_arr(arr: [Self; 32]) -> (r: Self::Simd32) {
        Lanes::from_array(arr)
    }

    fn simd64_from_arr(arr: [Self; 64]) -> (r: Self::Simd64) {
        Lanes::from_array(arr)
    }

    fn simd1_to_arr(simd: Self::Simd1) -> (r: [Self; 1]) {
        simd.to_array()
    }

    fn simd2_to_arr(simd: Self::Simd2) -> (r: [Self; 2]) {
        simd.to_array()
    }

    fn simd4_to_arr(simd: Self::Simd4) -> (r: [Self; 4]) {
        simd.to_array()
    }

    fn simd8_to_arr(simd: Self::Simd8) -> (r: [Self; 8]) {
        simd.to_array()
    }

    fn simd16_to_arr(simd: Self::Simd16) -> (r: [Self; 16]) {
        simd.to_array()
    }

    fn simd32_to_arr(simd: Self::Simd32) -> (r: [Self; 32]) {
        simd.to_array()
    }

    fn simd64_to_arr(simd: Self::Simd64) -> (r: [Self; 64]) {
        simd.to_array()
    }
}

impl MatrixSimd for u32 {
    type Simd1 = Lanes<u32, 1>;

    type Simd2 = Lanes<u32, 2>;

    type Simd4 = Lanes<u32, 4>;

    type Simd8 = Lanes<u32, 8>;

    type Simd16 = Lanes<u32, 16>;

    type Simd32 = Lanes<u32, 32>;

    type Simd64 = Lanes<u32, 64>;

    fn simd1_from_arr(arr: [Self; 1]) -> (r: Self::Simd1) {
        Lanes::from_array(arr)
    }

    fn simd2_from_arr(arr: [Self; 2]) -> (r: Self::Simd2) {
        Lanes::from_array(arr)
    }

    fn simd4_from_arr(arr: [Self; 4]) -> (r: Self::Simd4) {
        Lanes::from_array(arr)
    }

    fn simd8_from_arr(arr: [Self; 8]) -> (r: Self::Simd8) {
        Lanes::from_array(arr)
    }

    fn simd16_from_arr(arr: [Self; 16]) -> (r: Self::Simd16) {
        Lanes::from_array(arr)
    }

    fn simd32_from_arr(arr: [Self; 32]) -> (r: Self::Simd32) {
        Lanes::from_array(arr)
    }

    fn simd64_from_arr(arr: [Self; 64]) -> (r: Self::Simd64) {
        Lanes::from_array(arr)
    }

    fn simd1_to_arr(simd: Self::Simd1) -> (r: [Self; 1]) {
        simd.to_array()
    }

    fn simd2_to_arr(simd: Self::Simd2) -> (r: [Self; 2]) {
        simd.to_array()
    }

    fn simd4_to_arr(simd: Self::Simd4) -> (r: [Self; 4]) {
        simd.to_array()
    }

    fn simd8_to_arr(simd: Self::Simd8) -> (r: [Self; 8]) {
        simd.to_array()
    }

    fn simd16_to_arr(simd: Self::Simd16) -> (r: [Self; 16]) {
        simd.to_array()
    }

    fn simd32_to_arr(simd: Self::Simd32) -> (r: [Self; 32]) {
        simd.to_array()
    }

    fn simd64_to_arr(simd: Self::Simd64) -> (r: [Self; 64]) {
        simd.to_array()
    }
}

impl MatrixSimd for u64 {
    type Simd1 = Lanes<u64, 1>;

    type Simd2 = Lanes<u64, 2>;

    type Simd4 = Lanes<u64, 4>;

    type Simd8 = Lanes<u64, 8>;

    type Simd16 = Lanes<u64, 16>;

    type Simd32 = Lanes<u64, 32>;

    type Simd64 = Lanes<u64, 64>;

    fn simd1_from_arr(arr: [Self; 1]) -> (r: Self::Simd1) {
        Lanes::from_array(arr)
    }

    fn simd2_from_arr(arr: [Self; 2]) -> (r: Self::Simd2) {
        Lanes::from_array(arr)
    }

    fn simd4_from_arr(arr: [Self; 4]) -> (r: Self::Simd4) {
        Lanes::from_array(arr)
    }

    fn simd8_from_arr(arr: [Self; 8]) -> (r: Self::Simd8) {
        Lanes::from_array(arr)
    }

    fn simd16_from_arr(arr: [Self; 16]) -> (r: Self::Simd16) {
        Lanes::from_array(arr)
    }

    fn simd32_from_arr(arr: [Self; 32]) -> (r: Self::Simd32) {
        Lanes::from_array(arr)
    }

    fn simd64_from_arr(arr: [Self; 64]) -> (r: Self::Simd64) {
        Lanes::from_array(arr)
    }

    fn simd1_to_arr(simd: Self::Simd1) -> (r: [Self; 1]) {
        simd.to_array()
    }

    fn simd2_to_arr(simd: Self::Simd2) -> (r: [Self; 2]) {
        simd.to_array()
    }

    fn simd4_to_arr(simd: Self::Simd4) -> (r: [Self; 4]) {
        simd.to_array()
    }

    fn simd8_to_arr(simd: Self::Simd8) -> (r: [Self; 8]) {
        simd.to_array()
    }

    fn simd16_to_arr(simd: Self::Simd16) -> (r: [Self; 16]) {
        simd.to_array()
    }

    fn simd32_to_arr(simd: Self::Simd32) -> (r: [Self; 32]) {
        simd.to_array()
    }

    fn simd64_to_arr(simd: Self::Simd64) -> (r: [Self; 64]) {
        simd.to_array()
    }
}

impl MatrixSimd for usize {
    type Simd1 = Lanes<usize, 1>;

    type Simd2 = Lanes<usize, 2>;

    type Simd4 = Lanes<usize, 4>;

    type Simd8 = Lanes<usize, 8>;

    type Simd16 = Lanes<usize, 16>;

    type Simd32 = Lanes<usize, 32>;

    type Simd64 = Lanes<usize, 64>;

    fn simd1_from_arr(arr: [Self; 1]) -> (r: Self::Simd1) {
        Lanes::from_array(arr)
    }

    fn simd2_from_arr(arr: [Self; 2]) -> (r: Self::Simd2) {
        Lanes::from_array(arr)
    }

    fn simd4_from_arr(arr: [Self; 4]) -> (r: Self::Simd4) {
        Lanes::from_array(arr)
    }

    fn simd8_from_arr(arr: [Self; 8]) -> (r: Self::Simd8) {
        Lanes::from_array(arr)
    }

    fn simd16_from_arr(arr: [Self; 16]) -> (r: Self::Simd16) {
        Lanes::from_array(arr)
    }

    fn simd32_from_arr(arr: [Self; 32]) -> (r: Self::Simd32) {
        Lanes::from_array(arr)
    }

    fn simd64_from_arr(arr: [Self; 64]) -> (r: Self::Simd64) {
        Lanes::from_array(arr)
    }

    fn simd1_to_arr(simd: Self::Simd1) -> (r: [Self; 1]) {
        simd.to_array()
    }

    fn simd2_to_arr(simd: Self::Simd2) -> (r: [Self; 2]) {
        simd.to_array()
    }

    fn simd4_to_arr(simd: Self::Simd4) -> (r: [Self; 4]) {
        simd.to_array()
    }

    fn simd8_to_arr(simd: Self::Simd8) -> (r: [Self; 8]) {
        simd.to_array()
    }

    fn simd16_to_arr(simd: Self::Simd16) -> (r: [Self; 16]) {
        simd.to_array()
    }

    fn simd32_to_arr(simd: Self::Simd32) -> (r: [Self; 32]) {
        simd.to_array()
    }

    fn simd64_to_arr(simd: Self::Simd64) -> (r: [Self; 64]) {
        simd.to_array()
    }
}

} // verus!
