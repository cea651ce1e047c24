//! Element types with device arithmetic: wrapping `+`, `-` and `*`, and
//! division that truncates towards zero, as device integer types compute.
use vstd::arithmetic::div_mod::{
    lemma_add_mod_noop_right, lemma_mod_add_multiples_vanish, lemma_mod_sub_multiples_vanish,
    lemma_small_mod,
};
use vstd::prelude::*;

use crate::traits::Param;

verus! {

/// An unsigned value `x` reduced modulo `m`.
pub open spec fn unsigned_wrap(x: int, m: int) -> int {
    x % m
}

/// A signed value `x` reduced to the two's complement range of modulus `m`.
pub open spec fn signed_wrap(x: int, m: int) -> int {
    if x % m >= m / 2 {
        x % m - m
    } else {
        x % m
    }
}

proof fn lemma_unsigned_congruent(a: int, b: int, m: int)
    requires
        0 < m,
    ensures
        unsigned_wrap(unsigned_wrap(a, m) + b, m) == unsigned_wrap(a + b, m),
{
    lemma_add_mod_noop_right(b, a, m);
}

proof fn lemma_unsigned_shift(x: int, m: int)
    requires
        0 < m,
        0 <= x < 2 * m,
    ensures
        unsigned_wrap(x, m) == if x < m { x } else { x - m },
{
    if x < m {
        lemma_small_mod(x as nat, m as nat);
    } else {
        lemma_mod_sub_multiples_vanish(x, m);
        lemma_small_mod((x - m) as nat, m as nat);
    }
}

proof fn lemma_unsigned_below(x: int, m: int)
    requires
        0 < m,
        -m <= x < 0,
    ensures
        unsigned_wrap(x, m) == x + m,
{
    lemma_mod_add_multiples_vanish(x, m);
    lemma_small_mod((x + m) as nat, m as nat);
}

proof fn lemma_signed_small(x: int, m: int)
    requires
        0 < m,
        m % 2 == 0,
        -(m / 2) <= x < m / 2,
    ensures
        signed_wrap(x, m) == x,
{
    if x >= 0 {
        lemma_small_mod(x as nat, m as nat);
    } else {
        lemma_unsigned_below(x, m);
    }
}

proof fn lemma_signed_period(x: int, m: int)
    requires
        0 < m,
    ensures
        signed_wrap(x + m, m) == signed_wrap(x, m),
        signed_wrap(x - m, m) == signed_wrap(x, m),
{
    lemma_mod_add_multiples_vanish(x, m);
    lemma_mod_sub_multiples_vanish(x, m);
}

proof fn lemma_signed_congruent(a: int, b: int, m: int)
    requires
        0 < m,
    ensures
        signed_wrap(signed_wrap(a, m) + b, m) == signed_wrap(a + b, m),
{
    lemma_add_mod_noop_right(b, a, m);
    if a % m >= m / 2 {
        lemma_mod_sub_multiples_vanish(a % m + b, m);
    }
}

/// An element type on which the kernels compute.
pub trait Element: Param {
    /// The element as an integer.
    spec fn value(self) -> int;

    /// The element whose value is congruent to `x` modulo the type's range.
    spec fn wrap(x: int) -> Self;

    /// The quotient of `x` by `y`, truncated towards zero, where it is
    /// defined and fits the type.
    spec fn quotient(x: Self, y: Self) -> Option<Self>;

    proof fn lemma_wrap_value(x: Self)
        ensures
            Self::wrap(x.value()) == x,
    ;

    proof fn lemma_wrap_congruent(a: int, b: int)
        ensures
            Self::wrap(Self::wrap(a).value() + b) == Self::wrap(a + b),
    ;

    proof fn lemma_small_values()
        ensures
            Self::wrap(0).value() == 0,
            Self::wrap(1).value() == 1,
    ;

    fn zero() -> (r: Self)
        ensures
            r == Self::wrap(0),
    ;

    fn wrapping_sum(self, o: Self) -> (r: Self)
        ensures
            r == Self::wrap(self.value() + o.value()),
    ;

    fn wrapping_difference(self, o: Self) -> (r: Self)
        ensures
            r == Self::wrap(self.value() - o.value()),
    ;

    fn wrapping_product(self, o: Self) -> (r: Self)
        ensures
            r == Self::wrap(self.value() * o.value()),
    ;

    fn checked_quotient(self, o: Self) -> (r: Option<Self>)
        ensures
            r == Self::quotient(self, o),
    ;

    fn same(self, o: Self) -> (r: bool)
        ensures
            r == (self == o),
    ;
}

/// `wrap(a) + wrap(b)` in the element type is `wrap(a + b)`.
pub proof fn lemma_wrap_add<T: Element>(a: int, b: int)
    ensures
        T::wrap(T::wrap(a).value() + T::wrap(b).value()) == T::wrap(a + b),
{
    T::lemma_wrap_congruent(a, T::wrap(b).value());
    T::lemma_wrap_congruent(b, a);
}

impl Element for u8 {
    open spec fn value(self) -> int {
        self as int
    }

    open spec fn wrap(x: int) -> u8 {
        unsigned_wrap(x, 256) as u8
    }

    open spec fn quotient(x: u8, y: u8) -> Option<u8> {
        x.checked_div(y)
    }

    proof fn lemma_wrap_value(x: u8) {
        lemma_small_mod(x as nat, 256);
    }

    proof fn lemma_wrap_congruent(a: int, b: int) {
        lemma_unsigned_congruent(a, b, 256);
    }

    proof fn lemma_small_values() {
    }

    fn zero() -> (r: u8) {
        0
    }

    fn wrapping_sum(self, o: u8) -> (r: u8) {
        proof {
            lemma_unsigned_shift(self + o, 256);
        }
        self.wrapping_add(o)
    }

    fn wrapping_difference(self, o: u8) -> (r: u8) {
        proof {
            if self >= o {
                lemma_small_mod((self - o) as nat, 256);
            } else {
                lemma_unsigned_below(self - o, 256);
            }
        }
        self.wrapping_sub(o)
    }

    fn wrapping_product(self, o: u8) -> (r: u8) {
        self.wrapping_mul(o)
    }

    fn checked_quotient(self, o: u8) -> (r: Option<u8>) {
        self.checked_div(o)
    }

    fn same(self, o: u8) -> (r: bool) {
        self == o
    }
}

impl Element for u16 {
    open spec fn value(self) -> int {
        self as int
    }

    open spec fn wrap(x: int) -> u16 {
        unsigned_wrap(x, 65536) as u16
    }

    open spec fn quotient(x: u16, y: u16) -> Option<u16> {
        x.checked_div(y)
    }

    proof fn lemma_wrap_value(x: u16) {
        lemma_small_mod(x as nat, 65536);
    }

    proof fn lemma_wrap_congruent(a: int, b: int) {
        lemma_unsigned_congruent(a, b, 65536);
    }

    proof fn lemma_small_values() {
    }

    fn zero() -> (r: u16) {
        0
    }

    fn wrapping_sum(self, o: u16) -> (r: u16) {
        proof {
            lemma_unsigned_shift(self + o, 65536);
        }
        self.wrapping_add(o)
    }

    fn wrapping_difference(self, o: u16) -> (r: u16) {
        proof {
            if self >= o {
                lemma_small_mod((self - o) as nat, 65536);
            } else {
                lemma_unsigned_below(self - o, 65536);
            }
        }
        self.wrapping_sub(o)
    }

    fn wrapping_product(self, o: u16) -> (r: u16) {
        self.wrapping_mul(o)
    }

    fn checked_quotient(self, o: u16) -> (r: Option<u16>) {
        self.checked_div(o)
    }

    fn same(self, o: u16) -> (r: bool) {
        self == o
    }
}

impl Element for u32 {
    open spec fn value(self) -> int {
        self as int
    }

    open spec fn wrap(x: int) -> u32 {
        unsigned_wrap(x, 4294967296) as u32
    }

    open spec fn quotient(x: u32, y: u32) -> Option<u32> {
        x.checked_div(y)
    }

    proof fn lemma_wrap_value(x: u32) {
        lemma_small_mod(x as nat, 4294967296);
    }

    proof fn lemma_wrap_congruent(a: int, b: int) {
        lemma_unsigned_congruent(a, b, 4294967296);
    }

    proof fn lemma_small_values() {
    }

    fn zero() -> (r: u32) {
        0
    }

    fn wrapping_sum(self, o: u32) -> (r: u32) {
        proof {
            lemma_unsigned_shift(self + o, 4294967296);
        }
        self.wrapping_add(o)
    }

    fn wrapping_difference(self, o: u32) -> (r: u32) {
        proof {
            if self >= o {
                lemma_small_mod((self - o) as nat, 4294967296);
            } else {
                lemma_unsigned_below(self - o, 4294967296);
            }
        }
        self.wrapping_sub(o)
    }

    fn wrapping_product(self, o: u32) -> (r: u32) {
        self.wrapping_mul(o)
    }

    fn checked_quotient(self, o: u32) -> (r: Option<u32>) {
        self.checked_div(o)
    }

    fn same(self, o: u32) -> (r: bool) {
        self == o
    }
}

impl Element for u64 {
    open spec fn value(self) -> int {
        self as int
    }

    open spec fn wrap(x: int) -> u64 {
        unsigned_wrap(x, 18446744073709551616) as u64
    }

    open spec fn quotient(x: u64, y: u64) -> Option<u64> {
        x.checked_div(y)
    }

    proof fn lemma_wrap_value(x: u64) {
        lemma_small_mod(x as nat, 18446744073709551616);
    }

    proof fn lemma_wrap_congruent(a: int, b: int) {
        lemma_unsigned_congruent(a, b, 18446744073709551616);
    }

    proof fn lemma_small_values() {
    }

    fn zero() -> (r: u64) {
        0
    }

    fn wrapping_sum(self, o: u64) -> (r: u64) {
        proof {
            lemma_unsigned_shift(self + o, 18446744073709551616);
        }
        self.wrapping_add(o)
    }

    fn wrapping_difference(self, o: u64) -> (r: u64) {
        proof {
            if self >= o {
                lemma_small_mod((self - o) as nat, 18446744073709551616);
            } else {
                lemma_unsigned_below(self - o, 18446744073709551616);
            }
        }
        self.wrapping_sub(o)
    }

    fn wrapping_product(self, o: u64) -> (r: u64) {
        self.wrapping_mul(o)
    }

    fn checked_quotient(self, o: u64) -> (r: Option<u64>) {
        self.checked_div(o)
    }

    fn same(self, o: u64) -> (r: bool) {
        self == o
    }
}

impl Element for i8 {
    open spec fn value(self) -> int {
        self as int
    }

    open spec fn wrap(x: int) -> i8 {
        signed_wrap(x, 256) as i8
    }

    open spec fn quotient(x: i8, y: i8) -> Option<i8> {
        x.checked_div(y)
    }

    proof fn lemma_wrap_value(x: i8) {
        lemma_signed_small(x as int, 256);
    }

    proof fn lemma_wrap_congruent(a: int, b: int) {
        lemma_signed_congruent(a, b, 256);
    }

    proof fn lemma_small_values() {
        lemma_signed_small(0, 256);
        lemma_signed_small(1, 256);
    }

    fn zero() -> (r: i8) {
        proof {
            lemma_signed_small(0, 256);
        }
        0
    }

    fn wrapping_sum(self, o: i8) -> (r: i8) {
        proof {
            let s = self + o;
            if s > i8::MAX {
                lemma_signed_period(s - 256, 256);
                lemma_signed_small(s - 256, 256);
            } else if s < i8::MIN {
                lemma_signed_period(s + 256, 256);
                lemma_signed_small(s + 256, 256);
            } else {
                lemma_signed_small(s, 256);
            }
        }
        self.wrapping_add(o)
    }

    fn wrapping_difference(self, o: i8) -> (r: i8) {
        proof {
            let s = self - o;
            if s > i8::MAX {
                lemma_signed_period(s - 256, 256);
                lemma_signed_small(s - 256, 256);
            } else if s < i8::MIN {
                lemma_signed_period(s + 256, 256);
                lemma_signed_small(s + 256, 256);
            } else {
                lemma_signed_small(s, 256);
            }
        }
        self.wrapping_sub(o)
    }

    fn wrapping_product(self, o: i8) -> (r: i8) {
        self.wrapping_mul(o)
    }

    fn checked_quotient(self, o: i8) -> (r: Option<i8>) {
        self.checked_div(o)
    }

    fn same(self, o: i8) -> (r: bool) {
        self == o
    }
}

impl Element for i16 {
    open spec fn value(self) -> int {
        self as int
    }

    open spec fn wrap(x: int) -> i16 {
        signed_wrap(x, 65536) as i16
    }

    open spec fn quotient(x: i16, y: i16) -> Option<i16> {
        x.checked_div(y)
    }

    proof fn lemma_wrap_value(x: i16) {
        lemma_signed_small(x as int, 65536);
    }

    proof fn lemma_wrap_congruent(a: int, b: int) {
        lemma_signed_congruent(a, b, 65536);
    }

    proof fn lemma_small_values() {
        lemma_signed_small(0, 65536);
        lemma_signed_small(1, 65536);
    }

    fn zero() -> (r: i16) {
        proof {
            lemma_signed_small(0, 65536);
        }
        0
    }

    fn wrapping_sum(self, o: i16) -> (r: i16) {
        proof {
            let s = self + o;
            if s > i16::MAX {
                lemma_signed_period(s - 65536, 65536);
                lemma_signed_small(s - 65536, 65536);
            } else if s < i16::MIN {
                lemma_signed_period(s + 65536, 65536);
                lemma_signed_small(s + 65536, 65536);
            } else {
                lemma_signed_small(s, 65536);
            }
        }
        self.wrapping_add(o)
    }

    fn wrapping_difference(self, o: i16) -> (r: i16) {
        proof {
            let s = self - o;
            if s > i16::MAX {
                lemma_signed_period(s - 65536, 65536);
                lemma_signed_small(s - 65536, 65536);
            } else if s < i16::MIN {
                lemma_signed_period(s + 65536, 65536);
                lemma_signed_small(s + 65536, 65536);
            } else {
                lemma_signed_small(s, 65536);
            }
        }
        self.wrapping_sub(o)
    }

    fn wrapping_product(self, o: i16) -> (r: i16) {
        self.wrapping_mul(o)
    }

    fn checked_quotient(self, o: i16) -> (r: Option<i16>) {
        self.checked_div(o)
    }

    fn same(self, o: i16) -> (r: bool) {
        self == o
    }
}

impl Element for i32 {
    open spec fn value(self) -> int {
        self as int
    }

    open spec fn wrap(x: int) -> i32 {
        signed_wrap(x, 4294967296) as i32
    }

    open spec fn quotient(x: i32, y: i32) -> Option<i32> {
        x.checked_div(y)
    }

    proof fn lemma_wrap_value(x: i32) {
        lemma_signed_small(x as int, 4294967296);
    }

    proof fn lemma_wrap_congruent(a: int, b: int) {
        lemma_signed_congruent(a, b, 4294967296);
    }

    proof fn lemma_small_values() {
        lemma_signed_small(0, 4294967296);
        lemma_signed_small(1, 4294967296);
    }

    fn zero() -> (r: i32) {
        proof {
            lemma_signed_small(0, 4294967296);
        }
        0
    }

    fn wrapping_sum(self, o: i32) -> (r: i32) {
        proof {
            let s = self + o;
            if s > i32::MAX {
                lemma_signed_period(s - 4294967296, 4294967296);
                lemma_signed_small(s - 4294967296, 4294967296);
            } else if s < i32::MIN {
                lemma_signed_period(s + 4294967296, 4294967296);
                lemma_signed_small(s + 4294967296, 4294967296);
            } else {
                lemma_signed_small(s, 4294967296);
            }
        }
        self.wrapping_add(o)
    }

    fn wrapping_difference(self, o: i32) -> (r: i32) {
        proof {
            let s = self - o;
            if s > i32::MAX {
                lemma_signed_period(s - 4294967296, 4294967296);
                lemma_signed_small(s - 4294967296, 4294967296);
            } else if s < i32::MIN {
                lemma_signed_period(s + 4294967296, 4294967296);
                lemma_signed_small(s + 4294967296, 4294967296);
            } else {
                lemma_signed_small(s, 4294967296);
            }
        }
        self.wrapping_sub(o)
    }

    fn wrapping_product(self, o: i32) -> (r: i32) {
        self.wrapping_mul(o)
    }

    fn checked_quotient(self, o: i32) -> (r: Option<i32>) {
        self.checked_div(o)
    }

    fn same(self, o: i32) -> (r: bool) {
        self == o
    }
}

impl Element for i64 {
    open spec fn value(self) -> int {
        self as int
    }

    open spec fn wrap(x: int) -> i64 {
        signed_wrap(x, 18446744073709551616) as i64
    }

    open spec fn quotient(x: i64, y: i64) -> Option<i64> {
        x.checked_div(y)
    }

    proof fn lemma_wrap_value(x: i64) {
        lemma_signed_small(x as int, 18446744073709551616);
    }

    proof fn lemma_wrap_congruent(a: int, b: int) {
        lemma_signed_congruent(a, b, 18446744073709551616);
    }

    proof fn lemma_small_values() {
        lemma_signed_small(0, 18446744073709551616);
        lemma_signed_small(1, 18446744073709551616);
    }

    fn zero() -> (r: i64) {
        proof {
            lemma_signed_small(0, 18446744073709551616);
        }
        0
    }

    fn wrapping_sum(self, o: i64) -> (r: i64) {
        proof {
            let s = self + o;
            if s > i64::MAX {
                lemma_signed_period(s - 18446744073709551616, 18446744073709551616);
                lemma_signed_small(s - 18446744073709551616, 18446744073709551616);
            } else if s < i64::MIN {
                lemma_signed_period(s + 18446744073709551616, 18446744073709551616);
                lemma_signed_small(s + 18446744073709551616, 18446744073709551616);
            } else {
                lemma_signed_small(s, 18446744073709551616);
            }
        }
        self.wrapping_add(o)
    }

    fn wrapping_difference(self, o: i64) -> (r: i64) {
        proof {
            let s = self - o;
            if s > i64::MAX {
                lemma_signed_period(s - 18446744073709551616, 18446744073709551616);
                lemma_signed_small(s - 18446744073709551616, 18446744073709551616);
            } else if s < i64::MIN {
                lemma_signed_period(s + 18446744073709551616, 18446744073709551616);
                lemma_signed_small(s + 18446744073709551616, 18446744073709551616);
            } else {
                lemma_signed_small(s, 18446744073709551616);
            }
        }
        self.wrapping_sub(o)
    }

    fn wrapping_product(self, o: i64) -> (r: i64) {
        self.wrapping_mul(o)
    }

    fn checked_quotient(self, o: i64) -> (r: Option<i64>) {
        self.checked_div(o)
    }

    fn same(self, o: i64) -> (r: bool) {
        self == o
    }
}

} // verus!
