//! Traits for abstracting over numeric types.
//!
//! These traits describe various numeric properties and operations. The
//! philosophy is to focus on capabilities rather than categories: each
//! operation (or group of operations) has its own trait, so that a number
//! type can implement only the ones that make sense for it.
//!
//! Each trait that the unsigned integer types implement here carries a
//! specification function, and the method's contract ties its result to it.
//! The unsigned integer implementations define those functions exactly.

use core::ops::{Add, Div, Mul, Neg, Rem, Sub};
use vstd::prelude::*;
use vstd::std_specs::ops::{AddSpec, DivSpec, MulSpec, NegSpec, RemSpec, SubSpec};

verus! {

/// Methods for the value `0`.
pub trait Zero: Sized {
    /// The value that `zero` returns.
    spec fn zero_spec() -> Self;

    /// Create a new `0` value.
    fn zero() -> (r: Self)
        ensures
            r == Self::zero_spec(),
    ;
}

/// Methods for the value `1`.
pub trait One: Sized {
    /// The value that `one` returns.
    spec fn one_spec() -> Self;

    /// Create a new `1` value.
    fn one() -> (r: Self)
        ensures
            r == Self::one_spec(),
    ;
}

/// A helper trait that collects arithmetic traits under one name.
pub trait Arithmetics where
    Self: Add<Output = Self> + Sub<Output = Self> + Mul<Output = Self> + Div<Output = Self> + Neg<
        Output = Self,
    > + Rem<Output = Self> + Sized,
 {

}

impl<T> Arithmetics for T where
    T: Add<Output = T> + Sub<Output = T> + Mul<Output = T> + Div<Output = T> + Neg<
        Output = T,
    > + Rem<Output = T> + Sized,
 {

}

/// The operators of `T` behave as their specification functions say (true of
/// every primitive integer type).
pub open spec fn obeys_arithmetics<T: Arithmetics>() -> bool {
    &&& T::obeys_add_spec()
    &&& T::obeys_sub_spec()
    &&& T::obeys_mul_spec()
    &&& T::obeys_div_spec()
    &&& T::obeys_neg_spec()
    &&& T::obeys_rem_spec()
}

/// Methods for getting the largest or smallest of two values.
pub trait MinMax: Sized {
    /// The value that `min` returns.
    spec fn min_spec(self, other: Self) -> Self;

    /// The value that `max` returns.
    spec fn max_spec(self, other: Self) -> Self;

    /// Return the smallest of `self` and `other`.
    fn min(self, other: Self) -> (r: Self)
        ensures
            r == self.min_spec(other),
    ;

    /// Return the largest of `self` and `other`.
    fn max(self, other: Self) -> (r: Self)
        ensures
            r == self.max_spec(other),
    ;

    /// Return a pair of `self` and `other`, where the smallest is the first
    /// value and the largest is the second.
    fn min_max(self, other: Self) -> (r: (Self, Self))
        ensures
            r == (self.min_spec(other), self.max_spec(other)),
    ;
}

/// Trigonometry methods and their inverses.
pub trait Trigonometry: Sized {
    /// Compute the sine of `self` (in radians).
    fn sin(self) -> Self;

    /// Compute the cosine of `self` (in radians).
    fn cos(self) -> Self;

    /// Simultaneously compute the sine and cosine of `self` (in radians).
    /// Returns `(sin(self), cos(self))`.
    fn sin_cos(self) -> (Self, Self);

    /// Compute the tangent of `self` (in radians).
    fn tan(self) -> Self;

    /// Compute the arcsine in radians of `self`.
    fn asin(self) -> Self;

    /// Compute the arccosine in radians of `self`.
    fn acos(self) -> Self;

    /// Compute the arctangent in radians of `self`.
    fn atan(self) -> Self;

    /// Compute the arctangent in radians of `self` (y) and `other` (x).
    fn atan2(self, other: Self) -> Self;
}

/// Method for getting the absolute value of a number.
pub trait Abs {
    /// Returns the absolute value of `self`.
    fn abs(self) -> Self;
}

/// Method for getting the square root of a number.
pub trait Sqrt {
    /// Returns the square root of `self`.
    fn sqrt(self) -> Self;
}

/// Method for getting the cube root of a number.
pub trait Cbrt {
    /// Returns the cube root of `self`.
    fn cbrt(self) -> Self;
}

/// Method for raising a number by a real number exponent.
///
/// The name "powf" is kept for familiarity, even though the exponent doesn't
/// have to be a floating point number.
pub trait Powf {
    /// Return `self` raised to the power of `exp`.
    fn powf(self, exp: Self) -> Self;
}

/// Method for raising a number by a signed integer exponent.
pub trait Powi {
    /// Return `self` raised to the power of `exp`.
    fn powi(self, exp: i32) -> Self;
}

/// Method for raising a number by an unsigned integer exponent.
pub trait Powu: Sized {
    /// Whether `self` raised to `exp` is representable.
    spec fn powu_req(self, exp: u32) -> bool;

    /// The value that `powu` returns.
    spec fn powu_spec(self, exp: u32) -> Self;

    /// Return `self` raised to the power of `exp`.
    fn powu(self, exp: u32) -> (r: Self)
        requires
            self.powu_req(exp),
        ensures
            r == self.powu_spec(exp),
    ;
}

/// Method for calculating `1 / x`.
pub trait Recip: Sized {
    /// Return `1 / self`.
    fn recip(self) -> Self;
}

/// Methods for calculating `e ^ x`,
pub trait Exp {
    /// Return `e ^ self`.
    fn exp(self) -> Self;
}

/// Methods for checking if a number can be used as a divisor.
pub trait IsValidDivisor {
    /// Return `true` if `self` can be used as a divisor in `x / self`.
    ///
    /// This checks that division by `self` will result in a finite and defined
    /// value. Integers check for `self != 0`.
    fn is_valid_divisor(&self) -> bool;
}

/// Methods for calculating the lengths of a hypotenuse.
pub trait Hypot {
    /// Returns the length of the hypotenuse formed by `self` and `other`, i.e.
    /// `sqrt(self * self + other * other)`.
    fn hypot(self, other: Self) -> Self;
}

/// Methods for rounding numbers to integers.
pub trait Round {
    /// Return the nearest integer to `self`. Round half-way cases away from 0.0.
    fn round(self) -> Self;

    /// Return the largest integer less than or equal to `self`.
    fn floor(self) -> Self;

    /// Return the smallest integer greater than or equal to `self`.
    fn ceil(self) -> Self;
}

/// `base` raised to `exp`, over the mathematical integers.
pub open spec fn power(base: int, exp: nat) -> int {
    vstd::arithmetic::power::pow(base, exp)
}

proof fn lemma_square_step(b: int, e: nat)
    requires
        e % 2 == 0,
    ensures
        power(b * b, e / 2) == power(b, e),
{
    vstd::arithmetic::power::lemma_square_is_pow2(b);
    vstd::arithmetic::power::lemma_pow_multiplies(b, 2, e / 2);
    assert(2 * (e / 2) == e);
}

proof fn lemma_power_ge_base(b: nat, e: nat)
    requires
        e >= 1,
    ensures
        b <= power(b as int, e),
{
    if b > 0 {
        vstd::arithmetic::power::lemma_pow1(b as int);
        vstd::arithmetic::power::lemma_pow_increases(b, 1, e);
    } else {
        vstd::arithmetic::power::lemma0_pow(e);
    }
}

proof fn lemma_power_nonneg(b: nat, e: nat)
    ensures
        0 <= power(b as int, e),
{
    if b > 0 {
        vstd::arithmetic::power::lemma_pow_positive(b as int, e);
    } else if e == 0 {
        vstd::arithmetic::power::lemma_pow0(0);
    } else {
        vstd::arithmetic::power::lemma0_pow(e);
    }
}

/// Raises a value to the power of exp, using exponentiation by squaring.
///
/// Note that `0⁰` (`pow(0, 0)`) returns `1`. Mathematically this is undefined.
pub fn pow(base: u128, exp: u32) -> (r: u128)
    requires
        power(base as int, exp as nat) <= u128::MAX,
    ensures
        r == power(base as int, exp as nat),
{
    let ghost target = power(base as int, exp as nat);
    if exp == 0 {
        proof {
            vstd::arithmetic::power::lemma_pow0(base as int);
        }
        return 1;
    }
    let mut base = base;
    let mut exp = exp;
    while exp & 1 == 0
        invariant
            exp >= 1,
            power(base as int, exp as nat) == target,
            target <= u128::MAX,
        decreases exp,
    {
        assert(exp & 1 == 0 ==> exp % 2 == 0 && exp >> 1 == exp / 2) by (bit_vector);
        assert(base * base <= target) by {
            lemma_power_ge_base((base * base) as nat, (exp / 2) as nat);
            lemma_square_step(base as int, exp as nat);
        }
        proof {
            lemma_square_step(base as int, exp as nat);
        }
        base = base * base;
        exp >>= 1;
    }
    if exp == 1 {
        proof {
            vstd::arithmetic::power::lemma_pow1(base as int);
        }
        return base;
    }
    assert(exp & 1 != 0 ==> exp % 2 == 1) by (bit_vector);
    let mut acc = base;
    proof {
        vstd::arithmetic::power::lemma_pow_adds(base as int, 1, (exp - 1) as nat);
        vstd::arithmetic::power::lemma_pow1(base as int);
        lemma_square_step(base as int, (exp - 1) as nat);
        assert((exp - 1) as nat / 2 == exp / 2);
    }
    while exp > 1
        invariant
            exp >= 1,
            acc * power((base * base) as int, (exp / 2) as nat) == target,
            target <= u128::MAX,
            acc == 0 <==> base == 0,
        decreases exp,
    {
        assert(exp >> 1 == exp / 2) by (bit_vector);
        proof {
            lemma_power_ge_base((base * base) as nat, (exp / 2) as nat);
            lemma_power_nonneg((base * base) as nat, (exp / 2) as nat);
            if acc > 0 {
                assert(base * base <= target) by (nonlinear_arith)
                    requires
                        acc * power((base * base) as int, (exp / 2) as nat) == target,
                        base * base <= power((base * base) as int, (exp / 2) as nat),
                        acc >= 1,
                {
                }
            }
        }
        let ghost prev = base;
        exp >>= 1;
        base = base * base;
        assert(base == 0 <==> prev == 0) by (nonlinear_arith)
            requires
                base == prev * prev,
        ;
        let ghost b2 = (base as int) * (base as int);
        if exp & 1 == 1 {
            assert(exp & 1 == 1 ==> exp % 2 == 1) by (bit_vector);
            proof {
                vstd::arithmetic::power::lemma_pow_adds(base as int, 1, (exp - 1) as nat);
                vstd::arithmetic::power::lemma_pow1(base as int);
                lemma_square_step(base as int, (exp - 1) as nat);
                assert((exp - 1) as nat / 2 == exp / 2);
                lemma_power_nonneg(base as nat, (exp - 1) as nat);
                lemma_power_ge_base(base as nat, exp as nat);
                assert(acc * base <= target) by (nonlinear_arith)
                    requires
                        acc * power(base as int, exp as nat) == target,
                        base <= power(base as int, exp as nat),
                        acc >= 0,
                        base >= 0,
                        power(base as int, exp as nat) == base * power(base as int, (exp - 1) as nat),
                        power(base as int, (exp - 1) as nat) >= 0,
                {
                }
                assert((acc * base) * power(b2, (exp / 2) as nat) == target) by (nonlinear_arith)
                    requires
                        acc * power(base as int, exp as nat) == target,
                        power(base as int, exp as nat) == base * power(base as int, (exp - 1) as nat),
                        power(b2, (exp / 2) as nat) == power(base as int, (exp - 1) as nat),
                {
                }
            }
            let ghost prev_acc = acc;
            acc = acc * base;
            assert(acc == 0 <==> (prev_acc == 0 || base == 0)) by (nonlinear_arith)
                requires
                    acc == prev_acc * base,
            ;
        } else {
            assert(exp & 1 != 1 ==> exp % 2 == 0) by (bit_vector);
            proof {
                lemma_square_step(base as int, exp as nat);
            }
        }
    }
    proof {
        vstd::arithmetic::power::lemma_pow0((base * base) as int);
    }
    acc
}

impl Zero for u8 {
    open spec fn zero_spec() -> u8 {
        0
    }

    fn zero() -> (r: u8) {
        0
    }
}

impl One for u8 {
    open spec fn one_spec() -> u8 {
        1
    }

    fn one() -> (r: u8) {
        1
    }
}

impl MinMax for u8 {
    open spec fn min_spec(self, other: u8) -> u8 {
        if other < self {
            other
        } else {
            self
        }
    }

    open spec fn max_spec(self, other: u8) -> u8 {
        if other < self {
            self
        } else {
            other
        }
    }

    fn min(self, other: u8) -> (r: u8) {
        Ord::min(self, other)
    }

    fn max(self, other: u8) -> (r: u8) {
        Ord::max(self, other)
    }

    fn min_max(self, other: u8) -> (r: (u8, u8)) {
        if self > other {
            (other, self)
        } else {
            (self, other)
        }
    }
}

impl Powu for u8 {
    open spec fn powu_req(self, exp: u32) -> bool {
        power(self as int, exp as nat) <= u8::MAX
    }

    open spec fn powu_spec(self, exp: u32) -> u8 {
        power(self as int, exp as nat) as u8
    }

    fn powu(self, exp: u32) -> (r: u8) {
        proof {
            lemma_power_nonneg(self as nat, exp as nat);
        }
        pow(self as u128, exp) as u8
    }
}

impl IsValidDivisor for u8 {
    fn is_valid_divisor(&self) -> (r: bool)
        ensures
            r == (*self != 0),
    {
        *self != 0
    }
}

impl Zero for u16 {
    open spec fn zero_spec() -> u16 {
        0
    }

    fn zero() -> (r: u16) {
        0
    }
}

impl One for u16 {
    open spec fn one_spec() -> u16 {
        1
    }

    fn one() -> (r: u16) {
        1
    }
}

impl MinMax for u16 {
    open spec fn min_spec(self, other: u16) -> u16 {
        if other < self {
            other
        } else {
            self
        }
    }

    open spec fn max_spec(self, other: u16) -> u16 {
        if other < self {
            self
        } else {
            other
        }
    }

    fn min(self, other: u16) -> (r: u16) {
        Ord::min(self, other)
    }

    fn max(self, other: u16) -> (r: u16) {
        Ord::max(self, other)
    }

    fn min_max(self, other: u16) -> (r: (u16, u16)) {
        if self > other {
            (other, self)
        } else {
            (self, other)
        }
    }
}

impl Powu for u16 {
    open spec fn powu_req(self, exp: u32) -> bool {
        power(self as int, exp as nat) <= u16::MAX
    }

    open spec fn powu_spec(self, exp: u32) -> u16 {
        power(self as int, exp as nat) as u16
    }

    fn powu(self, exp: u32) -> (r: u16) {
        proof {
            lemma_power_nonneg(self as nat, exp as nat);
        }
        pow(self as u128, exp) as u16
    }
}

impl IsValidDivisor for u16 {
    fn is_valid_divisor(&self) -> (r: bool)
        ensures
            r == (*self != 0),
    {
        *self != 0
    }
}

impl Zero for u32 {
    open spec fn zero_spec() -> u32 {
        0
    }

    fn zero() -> (r: u32) {
        0
    }
}

impl One for u32 {
    open spec fn one_spec() -> u32 {
        1
    }

    fn one() -> (r: u32) {
        1
    }
}

impl MinMax for u32 {
    open spec fn min_spec(self, other: u32) -> u32 {
        if other < self {
            other
        } else {
            self
        }
    }

    open spec fn max_spec(self, other: u32) -> u32 {
        if other < self {
            self
        } else {
            other
        }
    }

    fn min(self, other: u32) -> (r: u32) {
        Ord::min(self, other)
    }

    fn max(self, other: u32) -> (r: u32) {
        Ord::max(self, other)
    }

    fn min_max(self, other: u32) -> (r: (u32, u32)) {
        if self > other {
            (other, self)
        } else {
            (self, other)
        }
    }
}

impl Powu for u32 {
    open spec fn powu_req(self, exp: u32) -> bool {
        power(self as int, exp as nat) <= u32::MAX
    }

    open spec fn powu_spec(self, exp: u32) -> u32 {
        power(self as int, exp as nat) as u32
    }

    fn powu(self, exp: u32) -> (r: u32) {
        proof {
            lemma_power_nonneg(self as nat, exp as nat);
        }
        pow(self as u128, exp) as u32
    }
}

impl IsValidDivisor for u32 {
    fn is_valid_divisor(&self) -> (r: bool)
        ensures
            r == (*self != 0),
    {
        *self != 0
    }
}

impl Zero for u64 {
    open spec fn zero_spec() -> u64 {
        0
    }

    fn zero() -> (r: u64) {
        0
    }
}

impl One for u64 {
    open spec fn one_spec() -> u64 {
        1
    }

    fn one() -> (r: u64) {
        1
    }
}

impl MinMax for u64 {
    open spec fn min_spec(self, other: u64) -> u64 {
        if other < self {
            other
        } else {
            self
        }
    }

    open spec fn max_spec(self, other: u64) -> u64 {
        if other < self {
            self
        } else {
            other
        }
    }

    fn min(self, other: u64) -> (r: u64) {
        Ord::min(self, other)
    }

    fn max(self, other: u64) -> (r: u64) {
        Ord::max(self, other)
    }

    fn min_max(self, other: u64) -> (r: (u64, u64)) {
        if self > other {
            (other, self)
        } else {
            (self, other)
        }
    }
}

impl Powu for u64 {
    open spec fn powu_req(self, exp: u32) -> bool {
        power(self as int, exp as nat) <= u64::MAX
    }

    open spec fn powu_spec(self, exp: u32) -> u64 {
        power(self as int, exp as nat) as u64
    }

    fn powu(self, exp: u32) -> (r: u64) {
        proof {
            lemma_power_nonneg(self as nat, exp as nat);
        }
        pow(self as u128, exp) as u64
    }
}

impl IsValidDivisor for u64 {
    fn is_valid_divisor(&self) -> (r: bool)
        ensures
            r == (*self != 0),
    {
        *self != 0
    }
}

impl Zero for u128 {
    open spec fn zero_spec() -> u128 {
        0
    }

    fn zero() -> (r: u128) {
        0
    }
}

impl One for u128 {
    open spec fn one_spec() -> u128 {
        1
    }

    fn one() -> (r: u128) {
        1
    }
}

impl MinMax for u128 {
    open spec fn min_spec(self, other: u128) -> u128 {
        if other < self {
            other
        } else {
            self
        }
    }

    open spec fn max_spec(self, other: u128) -> u128 {
        if other < self {
            self
        } else {
            other
        }
    }

    fn min(self, other: u128) -> (r: u128) {
        Ord::min(self, other)
    }

    fn max(self, other: u128) -> (r: u128) {
        Ord::max(self, other)
    }

    fn min_max(self, other: u128) -> (r: (u128, u128)) {
        if self > other {
            (other, self)
        } else {
            (self, other)
        }
    }
}

impl Powu for u128 {
    open spec fn powu_req(self, exp: u32) -> bool {
        power(self as int, exp as nat) <= u128::MAX
    }

    open spec fn powu_spec(self, exp: u32) -> u128 {
        power(self as int, exp as nat) as u128
    }

    fn powu(self, exp: u32) -> (r: u128) {
        proof {
            lemma_power_nonneg(self as nat, exp as nat);
        }
        pow(self, exp)
    }
}

impl IsValidDivisor for u128 {
    fn is_valid_divisor(&self) -> (r: bool)
        ensures
            r == (*self != 0),
    {
        *self != 0
    }
}

} // verus!
