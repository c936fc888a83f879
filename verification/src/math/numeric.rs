//! The numeric element: what a type must offer to be the entry of a matrix.
//!
//! An element type stands for the integers of a window `[low, low + modulus)` and
//! computes exactly modulo `modulus`: sum, difference and product are the integer
//! results, brought back into the window. The machine integers with their wrapping
//! operations are such types.

use super::modular::{
    lemma_residue_difference, lemma_residue_sum, lemma_wrap_congruent, lemma_wrap_fixed,
    lemma_wrap_in_window, lemma_wrap_residue, wrap,
};
use vstd::prelude::*;

verus! {

/// Arithmetic capabilities of a matrix entry: a zero, copy semantics, addition,
/// subtraction, multiplication and in-place accumulation.
///
/// The integer `value` of an element is its mathematical model. The three proof
/// functions make `value` a bijection between the type and its window, so that an
/// element is known once its value is. No division, no order and no test for overflow
/// is asked for: a result that leaves the window comes back into it modulo `modulus`.
pub trait Numeric: Copy + Sized {
    /// The least integer that an element stands for.
    spec fn low() -> int;

    /// The number of elements; arithmetic is exact modulo this number.
    spec fn modulus() -> int;

    /// The integer that this element stands for.
    spec fn value(self) -> int;

    /// The element that stands for `x`, for `x` in the window.
    spec fn from_value(x: int) -> Self;

    /// The window is not empty and holds zero.
    proof fn lemma_window()
        ensures
            Self::modulus() > 0,
            Self::low() <= 0 < Self::low() + Self::modulus(),
    ;

    /// Every element stands for an integer of the window, and is found again from it.
    proof fn lemma_value(self)
        ensures
            Self::low() <= self.value() < Self::low() + Self::modulus(),
            Self::from_value(self.value()) == self,
    ;

    /// Every integer of the window has its element.
    proof fn lemma_from_value(x: int)
        requires
            Self::low() <= x < Self::low() + Self::modulus(),
        ensures
            Self::from_value(x).value() == x,
    ;

    /// The additive identity, `elem_zero()`.
    fn zero() -> (r: Self)
        ensures
            r == Self::from_value(0),
    ;

    /// The sum of two elements, `elem_sum(self, rhs)`.
    fn plus(self, rhs: Self) -> (r: Self)
        ensures
            r == Self::from_value(wrap(self.value() + rhs.value(), Self::low(), Self::modulus())),
    ;

    /// The difference of two elements, `elem_difference(self, rhs)`.
    fn minus(self, rhs: Self) -> (r: Self)
        ensures
            r == Self::from_value(wrap(self.value() - rhs.value(), Self::low(), Self::modulus())),
    ;

    /// The product of two elements, `elem_product(self, rhs)`.
    fn times(self, rhs: Self) -> (r: Self)
        ensures
            r == Self::from_value(wrap(self.value() * rhs.value(), Self::low(), Self::modulus())),
    ;

    /// Adds `rhs` to the element in place: it becomes `elem_sum` of its old self and
    /// `rhs`.
    fn accumulate(&mut self, rhs: Self)
        ensures
            *final(self) == Self::from_value(
                wrap(old(self).value() + rhs.value(), Self::low(), Self::modulus()),
            ),
    ;
}

/// The element of `T` that stands for the integer `x` reduced into the window of `T`.
pub open spec fn reduce<T: Numeric>(x: int) -> T {
    T::from_value(wrap(x, T::low(), T::modulus()))
}

/// The zero of `T`: the element whose value is 0.
pub open spec fn elem_zero<T: Numeric>() -> T {
    T::from_value(0)
}

/// The sum of two elements: their integer sum, reduced.
pub open spec fn elem_sum<T: Numeric>(a: T, b: T) -> T {
    reduce::<T>(a.value() + b.value())
}

/// The difference of two elements: their integer difference, reduced.
pub open spec fn elem_difference<T: Numeric>(a: T, b: T) -> T {
    reduce::<T>(a.value() - b.value())
}

/// The product of two elements: their integer product, reduced.
pub open spec fn elem_product<T: Numeric>(a: T, b: T) -> T {
    reduce::<T>(a.value() * b.value())
}

/// The value of a reduced integer lies in the window and is congruent to the integer.
pub proof fn lemma_reduce_value<T: Numeric>(x: int)
    ensures
        reduce::<T>(x).value() == wrap(x, T::low(), T::modulus()),
        reduce::<T>(x).value() % T::modulus() == x % T::modulus(),
{
    T::lemma_window();
    lemma_wrap_in_window(x, T::low(), T::modulus());
    lemma_wrap_residue(x, T::low(), T::modulus());
    T::lemma_from_value(wrap(x, T::low(), T::modulus()));
}

/// Congruent integers reduce to the same element.
pub proof fn lemma_reduce_congruent<T: Numeric>(x: int, y: int)
    requires
        x % T::modulus() == y % T::modulus(),
    ensures
        reduce::<T>(x) == reduce::<T>(y),
{
    T::lemma_window();
    lemma_wrap_congruent(x, y, T::low(), T::modulus());
}

/// The zero element has value 0.
pub proof fn lemma_zero_value<T: Numeric>()
    ensures
        elem_zero::<T>().value() == 0,
{
    T::lemma_window();
    T::lemma_from_value(0);
}

/// The zero element is the reduction of 0.
pub proof fn lemma_zero_is_reduced<T: Numeric>()
    ensures
        elem_zero::<T>() == reduce::<T>(0),
{
    T::lemma_window();
    lemma_wrap_fixed(0, T::low(), T::modulus());
}

/// The sum of two reduced integers is their integer sum, reduced.
pub proof fn lemma_sum_of_reduced<T: Numeric>(x: int, y: int)
    ensures
        elem_sum(reduce::<T>(x), reduce::<T>(y)) == reduce::<T>(x + y),
{
    T::lemma_window();
    lemma_reduce_value::<T>(x);
    lemma_reduce_value::<T>(y);
    lemma_residue_sum(reduce::<T>(x).value(), x, reduce::<T>(y).value(), y, T::modulus());
    lemma_reduce_congruent::<T>(reduce::<T>(x).value() + reduce::<T>(y).value(), x + y);
}

/// The difference of two reduced integers is their integer difference, reduced.
pub proof fn lemma_difference_of_reduced<T: Numeric>(x: int, y: int)
    ensures
        elem_difference(reduce::<T>(x), reduce::<T>(y)) == reduce::<T>(x - y),
{
    T::lemma_window();
    lemma_reduce_value::<T>(x);
    lemma_reduce_value::<T>(y);
    lemma_residue_difference(reduce::<T>(x).value(), x, reduce::<T>(y).value(), y, T::modulus());
    lemma_reduce_congruent::<T>(reduce::<T>(x).value() - reduce::<T>(y).value(), x - y);
}

} // verus!
