//! The machine integers as numeric elements, with wrapping arithmetic.
//!
//! An unsigned type stands for the window `[0, MAX]`, a signed type for `[MIN, MAX]`;
//! both compute modulo the number of their values.

use super::modular::{lemma_wrap_above, lemma_wrap_below, lemma_wrap_fixed, lemma_wrap_unique};
use super::numeric::Numeric;
use vstd::arithmetic::div_mod::{lemma_mod_bound, lemma_mod_sub_multiples_vanish, lemma_mod_twice};
use vstd::prelude::*;

verus! {

impl Numeric for i8 {
    open spec fn low() -> int {
        i8::MIN as int
    }

    open spec fn modulus() -> int {
        i8::MAX - i8::MIN + 1
    }

    open spec fn value(self) -> int {
        self as int
    }

    open spec fn from_value(x: int) -> Self {
        x as i8
    }

    proof fn lemma_window() {
    }

    proof fn lemma_value(self) {
    }

    proof fn lemma_from_value(x: int) {
    }

    fn zero() -> (r: Self) {
        0
    }

    fn plus(self, rhs: Self) -> (r: Self) {
        proof {
            let s = self + rhs;
            if s > i8::MAX {
                lemma_wrap_above(s, Self::low(), Self::modulus());
            } else if s < i8::MIN {
                lemma_wrap_below(s, Self::low(), Self::modulus());
            } else {
                lemma_wrap_fixed(s, Self::low(), Self::modulus());
            }
        }
        self.wrapping_add(rhs)
    }

    fn minus(self, rhs: Self) -> (r: Self) {
        proof {
            let d = self - rhs;
            if d > i8::MAX {
                lemma_wrap_above(d, Self::low(), Self::modulus());
            } else if d < i8::MIN {
                lemma_wrap_below(d, Self::low(), Self::modulus());
            } else {
                lemma_wrap_fixed(d, Self::low(), Self::modulus());
            }
        }
        self.wrapping_sub(rhs)
    }

    fn times(self, rhs: Self) -> (r: Self) {
        proof {
            let p = self * rhs;
            let m = Self::modulus();
            let r = vstd::wrapping::i8_specs::wrapping_mul(self, rhs);
            lemma_mod_bound(p, m);
            lemma_mod_twice(p, m);
            if p % m > i8::MAX {
                lemma_mod_sub_multiples_vanish(p % m, m);
                assert(-m + p % m == p % m - m);
            }
            lemma_wrap_unique(p, r as int, Self::low(), m);
        }
        self.wrapping_mul(rhs)
    }

    fn accumulate(&mut self, rhs: Self) {
        *self = self.plus(rhs);
    }
}

impl Numeric for i16 {
    open spec fn low() -> int {
        i16::MIN as int
    }

    open spec fn modulus() -> int {
        i16::MAX - i16::MIN + 1
    }

    open spec fn value(self) -> int {
        self as int
    }

    open spec fn from_value(x: int) -> Self {
        x as i16
    }

    proof fn lemma_window() {
    }

    proof fn lemma_value(self) {
    }

    proof fn lemma_from_value(x: int) {
    }

    fn zero() -> (r: Self) {
        0
    }

    fn plus(self, rhs: Self) -> (r: Self) {
        proof {
            let s = self + rhs;
            if s > i16::MAX {
                lemma_wrap_above(s, Self::low(), Self::modulus());
            } else if s < i16::MIN {
                lemma_wrap_below(s, Self::low(), Self::modulus());
            } else {
                lemma_wrap_fixed(s, Self::low(), Self::modulus());
            }
        }
        self.wrapping_add(rhs)
    }

    fn minus(self, rhs: Self) -> (r: Self) {
        proof {
            let d = self - rhs;
            if d > i16::MAX {
                lemma_wrap_above(d, Self::low(), Self::modulus());
            } else if d < i16::MIN {
                lemma_wrap_below(d, Self::low(), Self::modulus());
            } else {
                lemma_wrap_fixed(d, Self::low(), Self::modulus());
            }
        }
        self.wrapping_sub(rhs)
    }

    fn times(self, rhs: Self) -> (r: Self) {
        proof {
            let p = self * rhs;
            let m = Self::modulus();
            let r = vstd::wrapping::i16_specs::wrapping_mul(self, rhs);
            lemma_mod_bound(p, m);
            lemma_mod_twice(p, m);
            if p % m > i16::MAX {
                lemma_mod_sub_multiples_vanish(p % m, m);
                assert(-m + p % m == p % m - m);
            }
            lemma_wrap_unique(p, r as int, Self::low(), m);
        }
        self.wrapping_mul(rhs)
    }

    fn accumulate(&mut self, rhs: Self) {
        *self = self.plus(rhs);
    }
}

impl Numeric for i32 {
    open spec fn low() -> int {
        i32::MIN as int
    }

    open spec fn modulus() -> int {
        i32::MAX - i32::MIN + 1
    }

    open spec fn value(self) -> int {
        self as int
    }

    open spec fn from_value(x: int) -> Self {
        x as i32
    }

    proof fn lemma_window() {
    }

    proof fn lemma_value(self) {
    }

    proof fn lemma_from_value(x: int) {
    }

    fn zero() -> (r: Self) {
        0
    }

    fn plus(self, rhs: Self) -> (r: Self) {
        proof {
            let s = self + rhs;
            if s > i32::MAX {
                lemma_wrap_above(s, Self::low(), Self::modulus());
            } else if s < i32::MIN {
                lemma_wrap_below(s, Self::low(), Self::modulus());
            } else {
                lemma_wrap_fixed(s, Self::low(), Self::modulus());
            }
        }
        self.wrapping_add(rhs)
    }

    fn minus(self, rhs: Self) -> (r: Self) {
        proof {
            let d = self - rhs;
            if d > i32::MAX {
                lemma_wrap_above(d, Self::low(), Self::modulus());
            } else if d < i32::MIN {
                lemma_wrap_below(d, Self::low(), Self::modulus());
            } else {
                lemma_wrap_fixed(d, Self::low(), Self::modulus());
            }
        }
        self.wrapping_sub(rhs)
    }

    fn times(self, rhs: Self) -> (r: Self) {
        proof {
            let p = self * rhs;
            let m = Self::modulus();
            let r = vstd::wrapping::i32_specs::wrapping_mul(self, rhs);
            lemma_mod_bound(p, m);
            lemma_mod_twice(p, m);
            if p % m > i32::MAX {
                lemma_mod_sub_multiples_vanish(p % m, m);
                assert(-m + p % m == p % m - m);
            }
            lemma_wrap_unique(p, r as int, Self::low(), m);
        }
        self.wrapping_mul(rhs)
    }

    fn accumulate(&mut self, rhs: Self) {
        *self = self.plus(rhs);
    }
}

impl Numeric for i64 {
    open spec fn low() -> int {
        i64::MIN as int
    }

    open spec fn modulus() -> int {
        i64::MAX - i64::MIN + 1
    }

    open spec fn value(self) -> int {
        self as int
    }

    open spec fn from_value(x: int) -> Self {
        x as i64
    }

    proof fn lemma_window() {
    }

    proof fn lemma_value(self) {
    }

    proof fn lemma_from_value(x: int) {
    }

    fn zero() -> (r: Self) {
        0
    }

    fn plus(self, rhs: Self) -> (r: Self) {
        proof {
            let s = self + rhs;
            if s > i64::MAX {
                lemma_wrap_above(s, Self::low(), Self::modulus());
            } else if s < i64::MIN {
                lemma_wrap_below(s, Self::low(), Self::modulus());
            } else {
                lemma_wrap_fixed(s, Self::low(), Self::modulus());
            }
        }
        self.wrapping_add(rhs)
    }

    fn minus(self, rhs: Self) -> (r: Self) {
        proof {
            let d = self - rhs;
            if d > i64::MAX {
                lemma_wrap_above(d, Self::low(), Self::modulus());
            } else if d < i64::MIN {
                lemma_wrap_below(d, Self::low(), Self::modulus());
            } else {
                lemma_wrap_fixed(d, Self::low(), Self::modulus());
            }
        }
        self.wrapping_sub(rhs)
    }

    fn times(self, rhs: Self) -> (r: Self) {
        proof {
            let p = self * rhs;
            let m = Self::modulus();
            let r = vstd::wrapping::i64_specs::wrapping_mul(self, rhs);
            lemma_mod_bound(p, m);
            lemma_mod_twice(p, m);
            if p % m > i64::MAX {
                lemma_mod_sub_multiples_vanish(p % m, m);
                assert(-m + p % m == p % m - m);
            }
            lemma_wrap_unique(p, r as int, Self::low(), m);
        }
        self.wrapping_mul(rhs)
    }

    fn accumulate(&mut self, rhs: Self) {
        *self = self.plus(rhs);
    }
}

impl Numeric for isize {
    open spec fn low() -> int {
        isize::MIN as int
    }

    open spec fn modulus() -> int {
        isize::MAX - isize::MIN + 1
    }

    open spec fn value(self) -> int {
        self as int
    }

    open spec fn from_value(x: int) -> Self {
        x as isize
    }

    proof fn lemma_window() {
    }

    proof fn lemma_value(self) {
    }

    proof fn lemma_from_value(x: int) {
    }

    fn zero() -> (r: Self) {
        0
    }

    fn plus(self, rhs: Self) -> (r: Self) {
        proof {
            let s = self + rhs;
            if s > isize::MAX {
                lemma_wrap_above(s, Self::low(), Self::modulus());
            } else if s < isize::MIN {
                lemma_wrap_below(s, Self::low(), Self::modulus());
            } else {
                lemma_wrap_fixed(s, Self::low(), Self::modulus());
            }
        }
        self.wrapping_add(rhs)
    }

    fn minus(self, rhs: Self) -> (r: Self) {
        proof {
            let d = self - rhs;
            if d > isize::MAX {
                lemma_wrap_above(d, Self::low(), Self::modulus());
            } else if d < isize::MIN {
                lemma_wrap_below(d, Self::low(), Self::modulus());
            } else {
                lemma_wrap_fixed(d, Self::low(), Self::modulus());
            }
        }
        self.wrapping_sub(rhs)
    }

    fn times(self, rhs: Self) -> (r: Self) {
        proof {
            let p = self * rhs;
            let m = Self::modulus();
            let r = vstd::wrapping::isize_specs::wrapping_mul(self, rhs);
            lemma_mod_bound(p, m);
            lemma_mod_twice(p, m);
            if p % m > isize::MAX {
                lemma_mod_sub_multiples_vanish(p % m, m);
                assert(-m + p % m == p % m - m);
            }
            lemma_wrap_unique(p, r as int, Self::low(), m);
        }
        self.wrapping_mul(rhs)
    }

    fn accumulate(&mut self, rhs: Self) {
        *self = self.plus(rhs);
    }
}

impl Numeric for u8 {
    open spec fn low() -> int {
        0
    }

    open spec fn modulus() -> int {
        u8::MAX + 1
    }

    open spec fn value(self) -> int {
        self as int
    }

    open spec fn from_value(x: int) -> Self {
        x as u8
    }

    proof fn lemma_window() {
    }

    proof fn lemma_value(self) {
    }

    proof fn lemma_from_value(x: int) {
    }

    fn zero() -> (r: Self) {
        0
    }

    fn plus(self, rhs: Self) -> (r: Self) {
        proof {
            let s = self + rhs;
            if s > u8::MAX {
                lemma_wrap_above(s, Self::low(), Self::modulus());
            } else {
                lemma_wrap_fixed(s, Self::low(), Self::modulus());
            }
        }
        self.wrapping_add(rhs)
    }

    fn minus(self, rhs: Self) -> (r: Self) {
        proof {
            let d = self - rhs;
            if d < 0 {
                lemma_wrap_below(d, Self::low(), Self::modulus());
            } else {
                lemma_wrap_fixed(d, Self::low(), Self::modulus());
            }
        }
        self.wrapping_sub(rhs)
    }

    fn times(self, rhs: Self) -> (r: Self) {
        proof {
            assert(self * rhs >= 0) by (nonlinear_arith);
        }
        self.wrapping_mul(rhs)
    }

    fn accumulate(&mut self, rhs: Self) {
        *self = self.plus(rhs);
    }
}

impl Numeric for u16 {
    open spec fn low() -> int {
        0
    }

    open spec fn modulus() -> int {
        u16::MAX + 1
    }

    open spec fn value(self) -> int {
        self as int
    }

    open spec fn from_value(x: int) -> Self {
        x as u16
    }

    proof fn lemma_window() {
    }

    proof fn lemma_value(self) {
    }

    proof fn lemma_from_value(x: int) {
    }

    fn zero() -> (r: Self) {
        0
    }

    fn plus(self, rhs: Self) -> (r: Self) {
        proof {
            let s = self + rhs;
            if s > u16::MAX {
                lemma_wrap_above(s, Self::low(), Self::modulus());
            } else {
                lemma_wrap_fixed(s, Self::low(), Self::modulus());
            }
        }
        self.wrapping_add(rhs)
    }

    fn minus(self, rhs: Self) -> (r: Self) {
        proof {
            let d = self - rhs;
            if d < 0 {
                lemma_wrap_below(d, Self::low(), Self::modulus());
            } else {
                lemma_wrap_fixed(d, Self::low(), Self::modulus());
            }
        }
        self.wrapping_sub(rhs)
    }

    fn times(self, rhs: Self) -> (r: Self) {
        proof {
            assert(self * rhs >= 0) by (nonlinear_arith);
        }
        self.wrapping_mul(rhs)
    }

    fn accumulate(&mut self, rhs: Self) {
        *self = self.plus(rhs);
    }
}

impl Numeric for u32 {
    open spec fn low() -> int {
        0
    }

    open spec fn modulus() -> int {
        u32::MAX + 1
    }

    open spec fn value(self) -> int {
        self as int
    }

    open spec fn from_value(x: int) -> Self {
        x as u32
    }

    proof fn lemma_window() {
    }

    proof fn lemma_value(self) {
    }

    proof fn lemma_from_value(x: int) {
    }

    fn zero() -> (r: Self) {
        0
    }

    fn plus(self, rhs: Self) -> (r: Self) {
        proof {
            let s = self + rhs;
            if s > u32::MAX {
                lemma_wrap_above(s, Self::low(), Self::modulus());
            } else {
                lemma_wrap_fixed(s, Self::low(), Self::modulus());
            }
        }
        self.wrapping_add(rhs)
    }

    fn minus(self, rhs: Self) -> (r: Self) {
        proof {
            let d = self - rhs;
            if d < 0 {
                lemma_wrap_below(d, Self::low(), Self::modulus());
            } else {
                lemma_wrap_fixed(d, Self::low(), Self::modulus());
            }
        }
        self.wrapping_sub(rhs)
    }

    fn times(self, rhs: Self) -> (r: Self) {
        proof {
            assert(self * rhs >= 0) by (nonlinear_arith);
        }
        self.wrapping_mul(rhs)
    }

    fn accumulate(&mut self, rhs: Self) {
        *self = self.plus(rhs);
    }
}

impl Numeric for u64 {
    open spec fn low() -> int {
        0
    }

    open spec fn modulus() -> int {
        u64::MAX + 1
    }

    open spec fn value(self) -> int {
        self as int
    }

    open spec fn from_value(x: int) -> Self {
        x as u64
    }

    proof fn lemma_window() {
    }

    proof fn lemma_value(self) {
    }

    proof fn lemma_from_value(x: int) {
    }

    fn zero() -> (r: Self) {
        0
    }

    fn plus(self, rhs: Self) -> (r: Self) {
        proof {
            let s = self + rhs;
            if s > u64::MAX {
                lemma_wrap_above(s, Self::low(), Self::modulus());
            } else {
                lemma_wrap_fixed(s, Self::low(), Self::modulus());
            }
        }
        self.wrapping_add(rhs)
    }

    fn minus(self, rhs: Self) -> (r: Self) {
        proof {
            let d = self - rhs;
            if d < 0 {
                lemma_wrap_below(d, Self::low(), Self::modulus());
            } else {
                lemma_wrap_fixed(d, Self::low(), Self::modulus());
            }
        }
        self.wrapping_sub(rhs)
    }

    fn times(self, rhs: Self) -> (r: Self) {
        proof {
            assert(self * rhs >= 0) by (nonlinear_arith);
        }
        self.wrapping_mul(rhs)
    }

    fn accumulate(&mut self, rhs: Self) {
        *self = self.plus(rhs);
    }
}

impl Numeric for usize {
    open spec fn low() -> int {
        0
    }

    open spec fn modulus() -> int {
        usize::MAX + 1
    }

    open spec fn value(self) -> int {
        self as int
    }

    open spec fn from_value(x: int) -> Self {
        x as usize
    }

    proof fn lemma_window() {
    }

    proof fn lemma_value(self) {
    }

    proof fn lemma_from_value(x: int) {
    }

    fn zero() -> (r: Self) {
        0
    }

    fn plus(self, rhs: Self) -> (r: Self) {
        proof {
            let s = self + rhs;
            if s > usize::MAX {
                lemma_wrap_above(s, Self::low(), Self::modulus());
            } else {
                lemma_wrap_fixed(s, Self::low(), Self::modulus());
            }
        }
        self.wrapping_add(rhs)
    }

    fn minus(self, rhs: Self) -> (r: Self) {
        proof {
            let d = self - rhs;
            if d < 0 {
                lemma_wrap_below(d, Self::low(), Self::modulus());
            } else {
                lemma_wrap_fixed(d, Self::low(), Self::modulus());
            }
        }
        self.wrapping_sub(rhs)
    }

    fn times(self, rhs: Self) -> (r: Self) {
        proof {
            assert(self * rhs >= 0) by (nonlinear_arith);
        }
        self.wrapping_mul(rhs)
    }

    fn accumulate(&mut self, rhs: Self) {
        *self = self.plus(rhs);
    }
}

} // verus!
