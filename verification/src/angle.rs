//! Traits for working with angular values, such as hues.
//!
//! Angles are measured in degrees. A full turn is 360 degrees, so angles that
//! differ by a multiple of 360 are the same direction. Normalizing an angle
//! picks one representative of that direction: either in `[0, 360)` or in
//! `(-180, 180]`.
//!
//! The normalization works for any number type with the arithmetic operators,
//! an ordering and a conversion from `i16` (used for the constants 0, 180 and
//! 360), which includes the signed integers and the floating point types.

use crate::num::{obeys_arithmetics, Arithmetics};
use vstd::prelude::*;
use vstd::std_specs::cmp::{PartialOrdIs, PartialOrdSpec};
use vstd::std_specs::convert::FromSpec;
use vstd::std_specs::ops::{AddSpec, RemSpec, SubSpec};

verus! {

/// The number of degrees in a full turn, as a `T`.
pub open spec fn full_rotation<T: From<i16>>() -> T {
    T::from_spec(360i16)
}

/// `x`, moved into `[0, 360)` by whole turns.
pub open spec fn unsigned_angle_spec<T: Arithmetics + PartialOrd + From<i16>>(x: T) -> T {
    let r = x.rem_spec(full_rotation::<T>());
    if r.is_lt(&T::from_spec(0i16)) {
        r.add_spec(full_rotation::<T>())
    } else {
        r
    }
}

/// `x`, moved into `(-180, 180]` by whole turns.
pub open spec fn signed_angle_spec<T: Arithmetics + PartialOrd + From<i16>>(x: T) -> T {
    let r = x.rem_spec(full_rotation::<T>());
    if r.is_gt(&T::from_spec(180i16)) {
        r.sub_spec(full_rotation::<T>())
    } else if r.is_le(&T::from_spec(-180i16)) {
        r.add_spec(full_rotation::<T>())
    } else {
        r
    }
}

/// The operations of `T` follow their specifications, so the normalization
/// computes what its specification says.
pub open spec fn angle_arithmetic<T: Arithmetics + PartialOrd + From<i16>>() -> bool {
    &&& obeys_arithmetics::<T>()
    &&& T::obeys_partial_cmp_spec()
    &&& T::obeys_from_spec()
}

/// Angle types that can be normalized to `[0, 360)`.
pub trait UnsignedAngle: Sized {
    /// Whether the normalization of `self` can be computed.
    spec fn unsigned_angle_req(self) -> bool;

    /// The normalized angle.
    spec fn unsigned_angle(self) -> Self;

    /// Normalizes the angle to `[0, 360)` degrees.
    fn normalize_unsigned_angle(self) -> (r: Self)
        requires
            self.unsigned_angle_req(),
        ensures
            r == self.unsigned_angle(),
    ;
}

/// Angle types that can be normalized to `(-180, 180]`.
pub trait SignedAngle: Sized {
    /// Whether the normalization of `self` can be computed.
    spec fn signed_angle_req(self) -> bool;

    /// The normalized angle.
    spec fn signed_angle(self) -> Self;

    /// Normalizes the angle to `(-180, 180]` degrees.
    fn normalize_signed_angle(self) -> (r: Self)
        requires
            self.signed_angle_req(),
        ensures
            r == self.signed_angle(),
    ;
}

impl<T> UnsignedAngle for T where T: Arithmetics + PartialOrd + From<i16> + Copy {
    open spec fn unsigned_angle_req(self) -> bool {
        let r = self.rem_spec(full_rotation::<T>());
        &&& angle_arithmetic::<T>()
        &&& self.rem_req(full_rotation::<T>())
        &&& r.add_req(full_rotation::<T>())
    }

    open spec fn unsigned_angle(self) -> T {
        unsigned_angle_spec(self)
    }

    fn normalize_unsigned_angle(self) -> (r: T) {
        let full = T::from(360i16);
        let zero = T::from(0i16);
        let rem = self % full;
        if rem < zero {
            rem + full
        } else {
            rem
        }
    }
}

impl<T> SignedAngle for T where T: Arithmetics + PartialOrd + From<i16> + Copy {
    open spec fn signed_angle_req(self) -> bool {
        let r = self.rem_spec(full_rotation::<T>());
        &&& angle_arithmetic::<T>()
        &&& self.rem_req(full_rotation::<T>())
        &&& r.add_req(full_rotation::<T>())
        &&& r.sub_req(full_rotation::<T>())
    }

    open spec fn signed_angle(self) -> T {
        signed_angle_spec(self)
    }

    fn normalize_signed_angle(self) -> (r: T) {
        let full = T::from(360i16);
        let half = T::from(180i16);
        let negative_half = T::from(-180i16);
        let rem = self % full;
        if rem > half {
            rem - full
        } else if rem <= negative_half {
            rem + full
        } else {
            rem
        }
    }
}

/// For `i32` angles, normalizing to `[0, 360)` always succeeds, lands in
/// that range and keeps the direction: the result differs from the input by
/// whole turns.
#[verifier::spinoff_prover]
pub proof fn law_unsigned_angle_i32(x: i32)
    ensures
        x.unsigned_angle_req(),
        0 <= x.unsigned_angle() < 360,
        (x.unsigned_angle() - x) % 360 == 0,
{
    let r = x.rem_spec(360i32);
    assert(r == x % 360 || r == -((-x) % 360));
    if x >= 0 {
        assert(r == x % 360);
    } else {
        assert(r == -((-x) % 360));
        assert((-x) % 360 + (-x) / 360 * 360 == -x);
    }
}

/// For `i32` angles, normalizing to `(-180, 180]` always succeeds, lands in
/// that range and keeps the direction: the result differs from the input by
/// whole turns.
#[verifier::spinoff_prover]
pub proof fn law_signed_angle_i32(x: i32)
    ensures
        x.signed_angle_req(),
        -180 < x.signed_angle() <= 180,
        (x.signed_angle() - x) % 360 == 0,
{
    let r = x.rem_spec(360i32);
    if x >= 0 {
        assert(r == x % 360);
    } else {
        assert(r == -((-x) % 360));
        assert((-x) % 360 + (-x) / 360 * 360 == -x);
    }
}

/// For `i64` angles, normalizing to `[0, 360)` always succeeds, lands in that
/// range and keeps the direction: the result differs from the input by whole
/// turns.
#[verifier::spinoff_prover]
pub proof fn law_unsigned_angle_i64(x: i64)
    ensures
        x.unsigned_angle_req(),
        0 <= x.unsigned_angle() < 360,
        (x.unsigned_angle() - x) % 360 == 0,
{
    let r = x.rem_spec(360i64);
    assert(r == x % 360 || r == -((-x) % 360));
    if x >= 0 {
        assert(r == x % 360);
    } else {
        assert(r == -((-x) % 360));
        assert((-x) % 360 + (-x) / 360 * 360 == -x);
    }
}

/// For `i64` angles, normalizing to `(-180, 180]` always succeeds, lands in
/// that range and keeps the direction: the result differs from the input by
/// whole turns.
#[verifier::spinoff_prover]
pub proof fn law_signed_angle_i64(x: i64)
    ensures
        x.signed_angle_req(),
        -180 < x.signed_angle() <= 180,
        (x.signed_angle() - x) % 360 == 0,
{
    let r = x.rem_spec(360i64);
    if x >= 0 {
        assert(r == x % 360);
    } else {
        assert(r == -((-x) % 360));
        assert((-x) % 360 + (-x) / 360 * 360 == -x);
    }
}

/// Angle types whose values can be compared as directions, where angles that
/// differ by whole turns are equal.
pub trait AngleEq: Sized {
    /// Whether `self` and `other` are the same direction.
    spec fn angle_eq_spec(&self, other: &Self) -> bool;

    /// Check if `self` and `other` are the same angle, after normalizing both
    /// to `[0, 360)`.
    fn angle_eq(&self, other: &Self) -> (r: bool)
        ensures
            r == self.angle_eq_spec(other),
    ;
}

/// Two numbers that each differ by whole turns from a value in `[0, 360)`
/// have equal such values exactly when they differ by whole turns.
proof fn lemma_same_direction(x: int, y: int, nx: int, ny: int)
    requires
        0 <= nx < 360,
        0 <= ny < 360,
        (nx - x) % 360 == 0,
        (ny - y) % 360 == 0,
    ensures
        (nx == ny) <==> ((x - y) % 360 == 0),
{
    let kx = (nx - x) / 360;
    let ky = (ny - y) / 360;
    vstd::arithmetic::div_mod::lemma_fundamental_div_mod(nx - x, 360);
    vstd::arithmetic::div_mod::lemma_fundamental_div_mod(ny - y, 360);
    assert(x - y == (nx - ny) - 360 * (kx - ky)) by (nonlinear_arith)
        requires
            nx - x == 360 * kx,
            ny - y == 360 * ky,
    ;
    if nx == ny {
        vstd::arithmetic::div_mod::lemma_mod_multiples_basic(ky - kx, 360);
        assert(x - y == (ky - kx) * 360) by (nonlinear_arith)
            requires
                x - y == (nx - ny) - 360 * (kx - ky),
                nx == ny,
        ;
    }
    if (x - y) % 360 == 0 {
        let q = (x - y) / 360;
        vstd::arithmetic::div_mod::lemma_fundamental_div_mod(x - y, 360);
        assert(nx - ny == 360 * (q + kx - ky)) by (nonlinear_arith)
            requires
                x - y == 360 * q,
                x - y == (nx - ny) - 360 * (kx - ky),
        ;
        assert(nx == ny) by (nonlinear_arith)
            requires
                nx - ny == 360 * (q + kx - ky),
                -360 < nx - ny < 360,
        ;
    }
}

impl AngleEq for i32 {
    /// The two angles differ by whole turns.
    open spec fn angle_eq_spec(&self, other: &i32) -> bool {
        (*self - *other) % 360 == 0
    }

    fn angle_eq(&self, other: &i32) -> (r: bool) {
        proof {
            law_unsigned_angle_i32(*self);
            law_unsigned_angle_i32(*other);
            lemma_same_direction(
                *self as int,
                *other as int,
                self.unsigned_angle() as int,
                other.unsigned_angle() as int,
            );
        }
        self.normalize_unsigned_angle() == other.normalize_unsigned_angle()
    }
}

impl AngleEq for i64 {
    /// The two angles differ by whole turns.
    open spec fn angle_eq_spec(&self, other: &i64) -> bool {
        (*self - *other) % 360 == 0
    }

    fn angle_eq(&self, other: &i64) -> (r: bool) {
        proof {
            law_unsigned_angle_i64(*self);
            law_unsigned_angle_i64(*other);
            lemma_same_direction(
                *self as int,
                *other as int,
                self.unsigned_angle() as int,
                other.unsigned_angle() as int,
            );
        }
        self.normalize_unsigned_angle() == other.normalize_unsigned_angle()
    }
}

} // verus!
