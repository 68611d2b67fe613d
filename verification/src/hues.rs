//! Hue types: one wrapper type per family of color spaces, so that a hue of
//! one family is not used by mistake in another.
//!
//! A hue is a circular quantity, where `0` and `360` is the same. The
//! wrappers store the angle exactly as given; arithmetic on them acts on the
//! stored angle, and equality compares directions: two hues are equal when
//! their angles differ by whole turns.

use core::ops::{Add, Sub};
use crate::angle::{AngleEq, SignedAngle, UnsignedAngle};
use vstd::std_specs::cmp::{PartialEqSpec, PartialEqSpecImpl};
use vstd::pervasive::cloned;
use vstd::prelude::*;
use vstd::std_specs::convert::FromSpecImpl;
use vstd::std_specs::ops::{AddSpec, AddSpecImpl, SubSpec, SubSpecImpl};

verus! {

/// Every type converts into itself unchanged (`impl<T> From<T> for T` in
/// `core`, whose documentation says that it returns the argument unchanged).
pub assume_specification<V>[ <V as core::convert::From<V>>::from ](v: V) -> (r: V)
    ensures
        r == v,
;

/// A hue type for the CIE L\*a\*b\* family of color spaces.
///
/// It's measured in degrees and it's based on the four physiological
/// elementary colors _red_, _yellow_, _green_ and _blue_. This makes it
/// different from the hue of RGB based color spaces.
///
/// The hue is a circular type, where `0` and `360` is the same.
#[derive(Copy, Debug, Default)]
pub struct LabHue<T>(pub T);

impl<T: Clone> Clone for LabHue<T> {
    fn clone(&self) -> (r: Self)
        ensures
            cloned(self.0, r.0),
    {
        LabHue(self.0.clone())
    }
}

impl<T> LabHue<T> {
    /// Create a new hue, specified in the default unit for the angle
    /// type `T`.
    pub fn new(angle: T) -> (r: Self)
        ensures
            r == LabHue(angle),
    {
        Self(angle)
    }

    /// Get the internal representation without normalizing or converting it.
    pub fn into_inner(self) -> (r: T)
        ensures
            r == self.0,
    {
        self.0
    }
}

impl<T> LabHue<T> {
    /// Create a new hue from degrees. This is an alias for `new`.
    pub fn from_degrees(degrees: T) -> (r: Self)
        ensures
            r == LabHue(degrees),
    {
        Self::new(degrees)
    }

    /// Get the internal representation as degrees, without normalizing it.
    pub fn into_raw_degrees(self) -> (r: T)
        ensures
            r == self.0,
    {
        self.0
    }
}

impl<T: SignedAngle> LabHue<T> {
    /// Get the hue as degrees, in the range `(-180, 180]`.
    pub fn into_degrees(self) -> (r: T)
        requires
            self.0.signed_angle_req(),
        ensures
            r == self.0.signed_angle(),
    {
        self.0.normalize_signed_angle()
    }
}

impl<T: UnsignedAngle> LabHue<T> {
    /// Convert the hue to positive degrees, in the range `[0, 360)`.
    pub fn into_positive_degrees(self) -> (r: T)
        requires
            self.0.unsigned_angle_req(),
        ensures
            r == self.0.unsigned_angle(),
    {
        self.0.normalize_unsigned_angle()
    }
}

impl<T> From<T> for LabHue<T> {
    fn from(degrees: T) -> (r: LabHue<T>)
        ensures
            r == LabHue(degrees),
    {
        LabHue(degrees)
    }
}

impl<T> FromSpecImpl<T> for LabHue<T> {
    open spec fn obeys_from_spec() -> bool {
        true
    }

    open spec fn from_spec(v: T) -> LabHue<T> {
        LabHue(v)
    }
}

impl<T: AngleEq> PartialEq for LabHue<T> {
    /// The two hues are the same direction: their angles differ by whole
    /// turns.
    fn eq(&self, other: &LabHue<T>) -> (r: bool) {
        self.0.angle_eq(&other.0)
    }
}

impl<T: AngleEq> PartialEqSpecImpl for LabHue<T> {
    open spec fn obeys_eq_spec() -> bool {
        true
    }

    open spec fn eq_spec(&self, other: &LabHue<T>) -> bool {
        self.0.angle_eq_spec(&other.0)
    }
}

impl<T: AngleEq> PartialEq<T> for LabHue<T> {
    /// The hue is the same direction as the angle `other`.
    fn eq(&self, other: &T) -> (r: bool) {
        self.0.angle_eq(other)
    }
}

impl<T: AngleEq> PartialEqSpecImpl<T> for LabHue<T> {
    open spec fn obeys_eq_spec() -> bool {
        true
    }

    open spec fn eq_spec(&self, other: &T) -> bool {
        self.0.angle_eq_spec(other)
    }
}

impl<T: Add<Output = T>> Add<LabHue<T>> for LabHue<T> {
    type Output = LabHue<T>;

    fn add(self, other: LabHue<T>) -> (r: LabHue<T>) {
        LabHue(self.0 + other.0)
    }
}

impl<T: Add<Output = T>> AddSpecImpl<LabHue<T>> for LabHue<T> {
    open spec fn obeys_add_spec() -> bool {
        T::obeys_add_spec()
    }

    open spec fn add_req(self, rhs: LabHue<T>) -> bool {
        self.0.add_req(rhs.0)
    }

    open spec fn add_spec(self, rhs: LabHue<T>) -> LabHue<T> {
        LabHue(self.0.add_spec(rhs.0))
    }
}

impl<T: Add<Output = T>> Add<T> for LabHue<T> {
    type Output = LabHue<T>;

    fn add(self, other: T) -> (r: LabHue<T>) {
        LabHue(self.0 + other)
    }
}

impl<T: Add<Output = T>> AddSpecImpl<T> for LabHue<T> {
    open spec fn obeys_add_spec() -> bool {
        T::obeys_add_spec()
    }

    open spec fn add_req(self, rhs: T) -> bool {
        self.0.add_req(rhs)
    }

    open spec fn add_spec(self, rhs: T) -> LabHue<T> {
        LabHue(self.0.add_spec(rhs))
    }
}

impl<T: Sub<Output = T>> Sub<LabHue<T>> for LabHue<T> {
    type Output = LabHue<T>;

    fn sub(self, other: LabHue<T>) -> (r: LabHue<T>) {
        LabHue(self.0 - other.0)
    }
}

impl<T: Sub<Output = T>> SubSpecImpl<LabHue<T>> for LabHue<T> {
    open spec fn obeys_sub_spec() -> bool {
        T::obeys_sub_spec()
    }

    open spec fn sub_req(self, rhs: LabHue<T>) -> bool {
        self.0.sub_req(rhs.0)
    }

    open spec fn sub_spec(self, rhs: LabHue<T>) -> LabHue<T> {
        LabHue(self.0.sub_spec(rhs.0))
    }
}

impl<T: Sub<Output = T>> Sub<T> for LabHue<T> {
    type Output = LabHue<T>;

    fn sub(self, other: T) -> (r: LabHue<T>) {
        LabHue(self.0 - other)
    }
}

impl<T: Sub<Output = T>> SubSpecImpl<T> for LabHue<T> {
    open spec fn obeys_sub_spec() -> bool {
        T::obeys_sub_spec()
    }

    open spec fn sub_req(self, rhs: T) -> bool {
        self.0.sub_req(rhs)
    }

    open spec fn sub_spec(self, rhs: T) -> LabHue<T> {
        LabHue(self.0.sub_spec(rhs))
    }
}

/// A hue type for the CIE L\*u\*v\* family of color spaces.
///
/// The hue is a circular type, where `0` and `360` is the same.
#[derive(Copy, Debug, Default)]
pub struct LuvHue<T>(pub T);

impl<T: Clone> Clone for LuvHue<T> {
    fn clone(&self) -> (r: Self)
        ensures
            cloned(self.0, r.0),
    {
        LuvHue(self.0.clone())
    }
}

impl<T> LuvHue<T> {
    /// Create a new hue, specified in the default unit for the angle
    /// type `T`.
    pub fn new(angle: T) -> (r: Self)
        ensures
            r == LuvHue(angle),
    {
        Self(angle)
    }

    /// Get the internal representation without normalizing or converting it.
    pub fn into_inner(self) -> (r: T)
        ensures
            r == self.0,
    {
        self.0
    }
}

impl<T> LuvHue<T> {
    /// Create a new hue from degrees. This is an alias for `new`.
    pub fn from_degrees(degrees: T) -> (r: Self)
        ensures
            r == LuvHue(degrees),
    {
        Self::new(degrees)
    }

    /// Get the internal representation as degrees, without normalizing it.
    pub fn into_raw_degrees(self) -> (r: T)
        ensures
            r == self.0,
    {
        self.0
    }
}

impl<T: SignedAngle> LuvHue<T> {
    /// Get the hue as degrees, in the range `(-180, 180]`.
    pub fn into_degrees(self) -> (r: T)
        requires
            self.0.signed_angle_req(),
        ensures
            r == self.0.signed_angle(),
    {
        self.0.normalize_signed_angle()
    }
}

impl<T: UnsignedAngle> LuvHue<T> {
    /// Convert the hue to positive degrees, in the range `[0, 360)`.
    pub fn into_positive_degrees(self) -> (r: T)
        requires
            self.0.unsigned_angle_req(),
        ensures
            r == self.0.unsigned_angle(),
    {
        self.0.normalize_unsigned_angle()
    }
}

impl<T> From<T> for LuvHue<T> {
    fn from(degrees: T) -> (r: LuvHue<T>)
        ensures
            r == LuvHue(degrees),
    {
        LuvHue(degrees)
    }
}

impl<T> FromSpecImpl<T> for LuvHue<T> {
    open spec fn obeys_from_spec() -> bool {
        true
    }

    open spec fn from_spec(v: T) -> LuvHue<T> {
        LuvHue(v)
    }
}

impl<T: AngleEq> PartialEq for LuvHue<T> {
    /// The two hues are the same direction: their angles differ by whole
    /// turns.
    fn eq(&self, other: &LuvHue<T>) -> (r: bool) {
        self.0.angle_eq(&other.0)
    }
}

impl<T: AngleEq> PartialEqSpecImpl for LuvHue<T> {
    open spec fn obeys_eq_spec() -> bool {
        true
    }

    open spec fn eq_spec(&self, other: &LuvHue<T>) -> bool {
        self.0.angle_eq_spec(&other.0)
    }
}

impl<T: AngleEq> PartialEq<T> for LuvHue<T> {
    /// The hue is the same direction as the angle `other`.
    fn eq(&self, other: &T) -> (r: bool) {
        self.0.angle_eq(other)
    }
}

impl<T: AngleEq> PartialEqSpecImpl<T> for LuvHue<T> {
    open spec fn obeys_eq_spec() -> bool {
        true
    }

    open spec fn eq_spec(&self, other: &T) -> bool {
        self.0.angle_eq_spec(other)
    }
}

impl<T: Add<Output = T>> Add<LuvHue<T>> for LuvHue<T> {
    type Output = LuvHue<T>;

    fn add(self, other: LuvHue<T>) -> (r: LuvHue<T>) {
        LuvHue(self.0 + other.0)
    }
}

impl<T: Add<Output = T>> AddSpecImpl<LuvHue<T>> for LuvHue<T> {
    open spec fn obeys_add_spec() -> bool {
        T::obeys_add_spec()
    }

    open spec fn add_req(self, rhs: LuvHue<T>) -> bool {
        self.0.add_req(rhs.0)
    }

    open spec fn add_spec(self, rhs: LuvHue<T>) -> LuvHue<T> {
        LuvHue(self.0.add_spec(rhs.0))
    }
}

impl<T: Add<Output = T>> Add<T> for LuvHue<T> {
    type Output = LuvHue<T>;

    fn add(self, other: T) -> (r: LuvHue<T>) {
        LuvHue(self.0 + other)
    }
}

impl<T: Add<Output = T>> AddSpecImpl<T> for LuvHue<T> {
    open spec fn obeys_add_spec() -> bool {
        T::obeys_add_spec()
    }

    open spec fn add_req(self, rhs: T) -> bool {
        self.0.add_req(rhs)
    }

    open spec fn add_spec(self, rhs: T) -> LuvHue<T> {
        LuvHue(self.0.add_spec(rhs))
    }
}

impl<T: Sub<Output = T>> Sub<LuvHue<T>> for LuvHue<T> {
    type Output = LuvHue<T>;

    fn sub(self, other: LuvHue<T>) -> (r: LuvHue<T>) {
        LuvHue(self.0 - other.0)
    }
}

impl<T: Sub<Output = T>> SubSpecImpl<LuvHue<T>> for LuvHue<T> {
    open spec fn obeys_sub_spec() -> bool {
        T::obeys_sub_spec()
    }

    open spec fn sub_req(self, rhs: LuvHue<T>) -> bool {
        self.0.sub_req(rhs.0)
    }

    open spec fn sub_spec(self, rhs: LuvHue<T>) -> LuvHue<T> {
        LuvHue(self.0.sub_spec(rhs.0))
    }
}

impl<T: Sub<Output = T>> Sub<T> for LuvHue<T> {
    type Output = LuvHue<T>;

    fn sub(self, other: T) -> (r: LuvHue<T>) {
        LuvHue(self.0 - other)
    }
}

impl<T: Sub<Output = T>> SubSpecImpl<T> for LuvHue<T> {
    open spec fn obeys_sub_spec() -> bool {
        T::obeys_sub_spec()
    }

    open spec fn sub_req(self, rhs: T) -> bool {
        self.0.sub_req(rhs)
    }

    open spec fn sub_spec(self, rhs: T) -> LuvHue<T> {
        LuvHue(self.0.sub_spec(rhs))
    }
}

/// A hue type for the RGB family of color spaces.
///
/// It's measured in degrees and uses the three additive primaries _red_,
/// _green_ and _blue_.
///
/// The hue is a circular type, where `0` and `360` is the same.
#[derive(Copy, Debug, Default)]
pub struct RgbHue<T>(pub T);

impl<T: Clone> Clone for RgbHue<T> {
    fn clone(&self) -> (r: Self)
        ensures
            cloned(self.0, r.0),
    {
        RgbHue(self.0.clone())
    }
}

impl<T> RgbHue<T> {
    /// Create a new hue, specified in the default unit for the angle
    /// type `T`.
    pub fn new(angle: T) -> (r: Self)
        ensures
            r == RgbHue(angle),
    {
        Self(angle)
    }

    /// Get the internal representation without normalizing or converting it.
    pub fn into_inner(self) -> (r: T)
        ensures
            r == self.0,
    {
        self.0
    }
}

impl<T> RgbHue<T> {
    /// Create a new hue from degrees. This is an alias for `new`.
    pub fn from_degrees(degrees: T) -> (r: Self)
        ensures
            r == RgbHue(degrees),
    {
        Self::new(degrees)
    }

    /// Get the internal representation as degrees, without normalizing it.
    pub fn into_raw_degrees(self) -> (r: T)
        ensures
            r == self.0,
    {
        self.0
    }
}

impl<T: SignedAngle> RgbHue<T> {
    /// Get the hue as degrees, in the range `(-180, 180]`.
    pub fn into_degrees(self) -> (r: T)
        requires
            self.0.signed_angle_req(),
        ensures
            r == self.0.signed_angle(),
    {
        self.0.normalize_signed_angle()
    }
}

impl<T: UnsignedAngle> RgbHue<T> {
    /// Convert the hue to positive degrees, in the range `[0, 360)`.
    pub fn into_positive_degrees(self) -> (r: T)
        requires
            self.0.unsigned_angle_req(),
        ensures
            r == self.0.unsigned_angle(),
    {
        self.0.normalize_unsigned_angle()
    }
}

impl<T> From<T> for RgbHue<T> {
    fn from(degrees: T) -> (r: RgbHue<T>)
        ensures
            r == RgbHue(degrees),
    {
        RgbHue(degrees)
    }
}

impl<T> FromSpecImpl<T> for RgbHue<T> {
    open spec fn obeys_from_spec() -> bool {
        true
    }

    open spec fn from_spec(v: T) -> RgbHue<T> {
        RgbHue(v)
    }
}

impl<T: AngleEq> PartialEq for RgbHue<T> {
    /// The two hues are the same direction: their angles differ by whole
    /// turns.
    fn eq(&self, other: &RgbHue<T>) -> (r: bool) {
        self.0.angle_eq(&other.0)
    }
}

impl<T: AngleEq> PartialEqSpecImpl for RgbHue<T> {
    open spec fn obeys_eq_spec() -> bool {
        true
    }

    open spec fn eq_spec(&self, other: &RgbHue<T>) -> bool {
        self.0.angle_eq_spec(&other.0)
    }
}

impl<T: AngleEq> PartialEq<T> for RgbHue<T> {
    /// The hue is the same direction as the angle `other`.
    fn eq(&self, other: &T) -> (r: bool) {
        self.0.angle_eq(other)
    }
}

impl<T: AngleEq> PartialEqSpecImpl<T> for RgbHue<T> {
    open spec fn obeys_eq_spec() -> bool {
        true
    }

    open spec fn eq_spec(&self, other: &T) -> bool {
        self.0.angle_eq_spec(other)
    }
}

impl<T: Add<Output = T>> Add<RgbHue<T>> for RgbHue<T> {
    type Output = RgbHue<T>;

    fn add(self, other: RgbHue<T>) -> (r: RgbHue<T>) {
        RgbHue(self.0 + other.0)
    }
}

impl<T: Add<Output = T>> AddSpecImpl<RgbHue<T>> for RgbHue<T> {
    open spec fn obeys_add_spec() -> bool {
        T::obeys_add_spec()
    }

    open spec fn add_req(self, rhs: RgbHue<T>) -> bool {
        self.0.add_req(rhs.0)
    }

    open spec fn add_spec(self, rhs: RgbHue<T>) -> RgbHue<T> {
        RgbHue(self.0.add_spec(rhs.0))
    }
}

impl<T: Add<Output = T>> Add<T> for RgbHue<T> {
    type Output = RgbHue<T>;

    fn add(self, other: T) -> (r: RgbHue<T>) {
        RgbHue(self.0 + other)
    }
}

impl<T: Add<Output = T>> AddSpecImpl<T> for RgbHue<T> {
    open spec fn obeys_add_spec() -> bool {
        T::obeys_add_spec()
    }

    open spec fn add_req(self, rhs: T) -> bool {
        self.0.add_req(rhs)
    }

    open spec fn add_spec(self, rhs: T) -> RgbHue<T> {
        RgbHue(self.0.add_spec(rhs))
    }
}

impl<T: Sub<Output = T>> Sub<RgbHue<T>> for RgbHue<T> {
    type Output = RgbHue<T>;

    fn sub(self, other: RgbHue<T>) -> (r: RgbHue<T>) {
        RgbHue(self.0 - other.0)
    }
}

impl<T: Sub<Output = T>> SubSpecImpl<RgbHue<T>> for RgbHue<T> {
    open spec fn obeys_sub_spec() -> bool {
        T::obeys_sub_spec()
    }

    open spec fn sub_req(self, rhs: RgbHue<T>) -> bool {
        self.0.sub_req(rhs.0)
    }

    open spec fn sub_spec(self, rhs: RgbHue<T>) -> RgbHue<T> {
        RgbHue(self.0.sub_spec(rhs.0))
    }
}

impl<T: Sub<Output = T>> Sub<T> for RgbHue<T> {
    type Output = RgbHue<T>;

    fn sub(self, other: T) -> (r: RgbHue<T>) {
        RgbHue(self.0 - other)
    }
}

impl<T: Sub<Output = T>> SubSpecImpl<T> for RgbHue<T> {
    open spec fn obeys_sub_spec() -> bool {
        T::obeys_sub_spec()
    }

    open spec fn sub_req(self, rhs: T) -> bool {
        self.0.sub_req(rhs)
    }

    open spec fn sub_spec(self, rhs: T) -> RgbHue<T> {
        RgbHue(self.0.sub_spec(rhs))
    }
}

/// A hue type for the Oklab color space.
///
/// It's measured in degrees.
///
/// The hue is a circular type, where `0` and `360` is the same.
#[derive(Copy, Debug, Default)]
pub struct OklabHue<T>(pub T);

impl<T: Clone> Clone for OklabHue<T> {
    fn clone(&self) -> (r: Self)
        ensures
            cloned(self.0, r.0),
    {
        OklabHue(self.0.clone())
    }
}

impl<T> OklabHue<T> {
    /// Create a new hue, specified in the default unit for the angle
    /// type `T`.
    pub fn new(angle: T) -> (r: Self)
        ensures
            r == OklabHue(angle),
    {
        Self(angle)
    }

    /// Get the internal representation without normalizing or converting it.
    pub fn into_inner(self) -> (r: T)
        ensures
            r == self.0,
    {
        self.0
    }
}

impl<T> OklabHue<T> {
    /// Create a new hue from degrees. This is an alias for `new`.
    pub fn from_degrees(degrees: T) -> (r: Self)
        ensures
            r == OklabHue(degrees),
    {
        Self::new(degrees)
    }

    /// Get the internal representation as degrees, without normalizing it.
    pub fn into_raw_degrees(self) -> (r: T)
        ensures
            r == self.0,
    {
        self.0
    }
}

impl<T: SignedAngle> OklabHue<T> {
    /// Get the hue as degrees, in the range `(-180, 180]`.
    pub fn into_degrees(self) -> (r: T)
        requires
            self.0.signed_angle_req(),
        ensures
            r == self.0.signed_angle(),
    {
        self.0.normalize_signed_angle()
    }
}

impl<T: UnsignedAngle> OklabHue<T> {
    /// Convert the hue to positive degrees, in the range `[0, 360)`.
    pub fn into_positive_degrees(self) -> (r: T)
        requires
            self.0.unsigned_angle_req(),
        ensures
            r == self.0.unsigned_angle(),
    {
        self.0.normalize_unsigned_angle()
    }
}

impl<T> From<T> for OklabHue<T> {
    fn from(degrees: T) -> (r: OklabHue<T>)
        ensures
            r == OklabHue(degrees),
    {
        OklabHue(degrees)
    }
}

impl<T> FromSpecImpl<T> for OklabHue<T> {
    open spec fn obeys_from_spec() -> bool {
        true
    }

    open spec fn from_spec(v: T) -> OklabHue<T> {
        OklabHue(v)
    }
}

impl<T: AngleEq> PartialEq for OklabHue<T> {
    /// The two hues are the same direction: their angles differ by whole
    /// turns.
    fn eq(&self, other: &OklabHue<T>) -> (r: bool) {
        self.0.angle_eq(&other.0)
    }
}

impl<T: AngleEq> PartialEqSpecImpl for OklabHue<T> {
    open spec fn obeys_eq_spec() -> bool {
        true
    }

    open spec fn eq_spec(&self, other: &OklabHue<T>) -> bool {
        self.0.angle_eq_spec(&other.0)
    }
}

impl<T: AngleEq> PartialEq<T> for OklabHue<T> {
    /// The hue is the same direction as the angle `other`.
    fn eq(&self, other: &T) -> (r: bool) {
        self.0.angle_eq(other)
    }
}

impl<T: AngleEq> PartialEqSpecImpl<T> for OklabHue<T> {
    open spec fn obeys_eq_spec() -> bool {
        true
    }

    open spec fn eq_spec(&self, other: &T) -> bool {
        self.0.angle_eq_spec(other)
    }
}

impl<T: Add<Output = T>> Add<OklabHue<T>> for OklabHue<T> {
    type Output = OklabHue<T>;

    fn add(self, other: OklabHue<T>) -> (r: OklabHue<T>) {
        OklabHue(self.0 + other.0)
    }
}

impl<T: Add<Output = T>> AddSpecImpl<OklabHue<T>> for OklabHue<T> {
    open spec fn obeys_add_spec() -> bool {
        T::obeys_add_spec()
    }

    open spec fn add_req(self, rhs: OklabHue<T>) -> bool {
        self.0.add_req(rhs.0)
    }

    open spec fn add_spec(self, rhs: OklabHue<T>) -> OklabHue<T> {
        OklabHue(self.0.add_spec(rhs.0))
    }
}

impl<T: Add<Output = T>> Add<T> for OklabHue<T> {
    type Output = OklabHue<T>;

    fn add(self, other: T) -> (r: OklabHue<T>) {
        OklabHue(self.0 + other)
    }
}

impl<T: Add<Output = T>> AddSpecImpl<T> for OklabHue<T> {
    open spec fn obeys_add_spec() -> bool {
        T::obeys_add_spec()
    }

    open spec fn add_req(self, rhs: T) -> bool {
        self.0.add_req(rhs)
    }

    open spec fn add_spec(self, rhs: T) -> OklabHue<T> {
        OklabHue(self.0.add_spec(rhs))
    }
}

impl<T: Sub<Output = T>> Sub<OklabHue<T>> for OklabHue<T> {
    type Output = OklabHue<T>;

    fn sub(self, other: OklabHue<T>) -> (r: OklabHue<T>) {
        OklabHue(self.0 - other.0)
    }
}

impl<T: Sub<Output = T>> SubSpecImpl<OklabHue<T>> for OklabHue<T> {
    open spec fn obeys_sub_spec() -> bool {
        T::obeys_sub_spec()
    }

    open spec fn sub_req(self, rhs: OklabHue<T>) -> bool {
        self.0.sub_req(rhs.0)
    }

    open spec fn sub_spec(self, rhs: OklabHue<T>) -> OklabHue<T> {
        OklabHue(self.0.sub_spec(rhs.0))
    }
}

impl<T: Sub<Output = T>> Sub<T> for OklabHue<T> {
    type Output = OklabHue<T>;

    fn sub(self, other: T) -> (r: OklabHue<T>) {
        OklabHue(self.0 - other)
    }
}

impl<T: Sub<Output = T>> SubSpecImpl<T> for OklabHue<T> {
    open spec fn obeys_sub_spec() -> bool {
        T::obeys_sub_spec()
    }

    open spec fn sub_req(self, rhs: T) -> bool {
        self.0.sub_req(rhs)
    }

    open spec fn sub_spec(self, rhs: T) -> OklabHue<T> {
        OklabHue(self.0.sub_spec(rhs))
    }
}

/// With `i32` angles, two `LabHue` values compare equal with `==`, and a hue
/// compares equal to an angle, exactly when the angles differ by whole turns.
pub proof fn law_lab_hue_eq_i32(
    a: LabHue<i32>,
    b: LabHue<i32>,
    r: bool,
    angle: i32,
    r_angle: bool,
)
    requires
        call_ensures(<LabHue<i32> as PartialEq<LabHue<i32>>>::eq, (&a, &b), r),
        call_ensures(<LabHue<i32> as PartialEq<i32>>::eq, (&a, &angle), r_angle),
    ensures
        r <==> (a.0 - b.0) % 360 == 0,
        r_angle <==> (a.0 - angle) % 360 == 0,
{
}

/// With `i64` angles, two `LabHue` values compare equal with `==`, and a hue
/// compares equal to an angle, exactly when the angles differ by whole turns.
pub proof fn law_lab_hue_eq_i64(
    a: LabHue<i64>,
    b: LabHue<i64>,
    r: bool,
    angle: i64,
    r_angle: bool,
)
    requires
        call_ensures(<LabHue<i64> as PartialEq<LabHue<i64>>>::eq, (&a, &b), r),
        call_ensures(<LabHue<i64> as PartialEq<i64>>::eq, (&a, &angle), r_angle),
    ensures
        r <==> (a.0 - b.0) % 360 == 0,
        r_angle <==> (a.0 - angle) % 360 == 0,
{
}

/// With `i32` angles, two `LuvHue` values compare equal with `==`, and a hue
/// compares equal to an angle, exactly when the angles differ by whole turns.
pub proof fn law_luv_hue_eq_i32(
    a: LuvHue<i32>,
    b: LuvHue<i32>,
    r: bool,
    angle: i32,
    r_angle: bool,
)
    requires
        call_ensures(<LuvHue<i32> as PartialEq<LuvHue<i32>>>::eq, (&a, &b), r),
        call_ensures(<LuvHue<i32> as PartialEq<i32>>::eq, (&a, &angle), r_angle),
    ensures
        r <==> (a.0 - b.0) % 360 == 0,
        r_angle <==> (a.0 - angle) % 360 == 0,
{
}

/// With `i64` angles, two `LuvHue` values compare equal with `==`, and a hue
/// compares equal to an angle, exactly when the angles differ by whole turns.
pub proof fn law_luv_hue_eq_i64(
    a: LuvHue<i64>,
    b: LuvHue<i64>,
    r: bool,
    angle: i64,
    r_angle: bool,
)
    requires
        call_ensures(<LuvHue<i64> as PartialEq<LuvHue<i64>>>::eq, (&a, &b), r),
        call_ensures(<LuvHue<i64> as PartialEq<i64>>::eq, (&a, &angle), r_angle),
    ensures
        r <==> (a.0 - b.0) % 360 == 0,
        r_angle <==> (a.0 - angle) % 360 == 0,
{
}

/// With `i32` angles, two `RgbHue` values compare equal with `==`, and a hue
/// compares equal to an angle, exactly when the angles differ by whole turns.
pub proof fn law_rgb_hue_eq_i32(
    a: RgbHue<i32>,
    b: RgbHue<i32>,
    r: bool,
    angle: i32,
    r_angle: bool,
)
    requires
        call_ensures(<RgbHue<i32> as PartialEq<RgbHue<i32>>>::eq, (&a, &b), r),
        call_ensures(<RgbHue<i32> as PartialEq<i32>>::eq, (&a, &angle), r_angle),
    ensures
        r <==> (a.0 - b.0) % 360 == 0,
        r_angle <==> (a.0 - angle) % 360 == 0,
{
}

/// With `i64` angles, two `RgbHue` values compare equal with `==`, and a hue
/// compares equal to an angle, exactly when the angles differ by whole turns.
pub proof fn law_rgb_hue_eq_i64(
    a: RgbHue<i64>,
    b: RgbHue<i64>,
    r: bool,
    angle: i64,
    r_angle: bool,
)
    requires
        call_ensures(<RgbHue<i64> as PartialEq<RgbHue<i64>>>::eq, (&a, &b), r),
        call_ensures(<RgbHue<i64> as PartialEq<i64>>::eq, (&a, &angle), r_angle),
    ensures
        r <==> (a.0 - b.0) % 360 == 0,
        r_angle <==> (a.0 - angle) % 360 == 0,
{
}

/// With `i32` angles, two `OklabHue` values compare equal with `==`, and a hue
/// compares equal to an angle, exactly when the angles differ by whole turns.
pub proof fn law_oklab_hue_eq_i32(
    a: OklabHue<i32>,
    b: OklabHue<i32>,
    r: bool,
    angle: i32,
    r_angle: bool,
)
    requires
        call_ensures(<OklabHue<i32> as PartialEq<OklabHue<i32>>>::eq, (&a, &b), r),
        call_ensures(<OklabHue<i32> as PartialEq<i32>>::eq, (&a, &angle), r_angle),
    ensures
        r <==> (a.0 - b.0) % 360 == 0,
        r_angle <==> (a.0 - angle) % 360 == 0,
{
}

/// With `i64` angles, two `OklabHue` values compare equal with `==`, and a hue
/// compares equal to an angle, exactly when the angles differ by whole turns.
pub proof fn law_oklab_hue_eq_i64(
    a: OklabHue<i64>,
    b: OklabHue<i64>,
    r: bool,
    angle: i64,
    r_angle: bool,
)
    requires
        call_ensures(<OklabHue<i64> as PartialEq<OklabHue<i64>>>::eq, (&a, &b), r),
        call_ensures(<OklabHue<i64> as PartialEq<i64>>::eq, (&a, &angle), r_angle),
    ensures
        r <==> (a.0 - b.0) % 360 == 0,
        r_angle <==> (a.0 - angle) % 360 == 0,
{
}

} // verus!
