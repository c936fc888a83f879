//! Lane groups: a fixed number of elements that are multiplied or added together,
//! lane by lane.

use super::numeric::{elem_product, elem_sum, Numeric};
use vstd::prelude::*;

verus! {

/// Lane by lane product of two groups of one width: as many lanes as `a` has.
pub open spec fn lanewise_product<T: Numeric>(a: Seq<T>, b: Seq<T>) -> Seq<T> {
    Seq::new(a.len(), |i: int| elem_product(a[i], b[i]))
}

/// Lane by lane sum of two groups of one width: as many lanes as `a` has.
pub open spec fn lanewise_sum<T: Numeric>(a: Seq<T>, b: Seq<T>) -> Seq<T> {
    Seq::new(a.len(), |i: int| elem_sum(a[i], b[i]))
}

/// What a lane group of elements of `T` offers: its lanes, and the two lane-wise
/// operations.
pub trait LaneGroup<T: Numeric>: Copy + Sized {
    /// The elements in the lanes, lane 0 first.
    spec fn lanes(self) -> Seq<T>;

    /// Multiplies lane by lane.
    fn lane_mul(self, rhs: Self) -> (r: Self)
        ensures
            r.lanes() == lanewise_product(self.lanes(), rhs.lanes()),
    ;

    /// Adds lane by lane.
    fn lane_add(self, rhs: Self) -> (r: Self)
        ensures
            r.lanes() == lanewise_sum(self.lanes(), rhs.lanes()),
    ;
}

/// A group of `N` lanes, held as an array. The lane-wise operations run through the
/// lanes one by one; how wide the machine instructions are is left to the compiler.
#[derive(Copy, Debug)]
pub struct Lanes<T: Numeric, const N: usize> {
    vals: [T; N],
}

impl<T: Numeric, const N: usize> Clone for Lanes<T, N> {
    fn clone(&self) -> (r: Self)
        ensures
            r == *self,
    {
        *self
    }
}

impl<T: Numeric, const N: usize> Lanes<T, N> {
    /// The group whose lanes hold the elements of `arr`.
    pub fn from_array(arr: [T; N]) -> (r: Self)
        ensures
            r.lanes() == arr@,
    {
        Lanes { vals: arr }
    }

    /// The elements of the lanes.
    pub fn to_array(self) -> (r: [T; N])
        ensures
            r@ == self.lanes(),
    {
        self.vals
    }
}

impl<T: Numeric, const N: usize> LaneGroup<T> for Lanes<T, N> {
    closed spec fn lanes(self) -> Seq<T> {
        self.vals@
    }

    fn lane_mul(self, rhs: Self) -> (r: Self) {
        let mut out = self.vals;
        let mut i: usize = 0;
        while i < N
            invariant
                i <= N,
                forall|j: int| 0 <= j < i ==> out@[j] == elem_product(self.vals@[j], rhs.vals@[j]),
                forall|j: int| i <= j < N ==> out@[j] == self.vals@[j],
            decreases N - i,
        {
            out[i] = self.vals[i].times(rhs.vals[i]);
            i += 1;
        }
        assert(out@ =~= lanewise_product(self.vals@, rhs.vals@));
        Lanes { vals: out }
    }

    fn lane_add(self, rhs: Self) -> (r: Self) {
        let mut out = self.vals;
        let mut i: usize = 0;
        while i < N
            invariant
                i <= N,
                forall|j: int| 0 <= j < i ==> out@[j] == elem_sum(self.vals@[j], rhs.vals@[j]),
                forall|j: int| i <= j < N ==> out@[j] == self.vals@[j],
            decreases N - i,
        {
            out[i] = self.vals[i].plus(rhs.vals[i]);
            i += 1;
        }
        assert(out@ =~= lanewise_sum(self.vals@, rhs.vals@));
        Lanes { vals: out }
    }
}

} // verus!
