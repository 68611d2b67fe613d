//! A library that makes linear color calculations and conversion easy and
//! accessible for anyone. It uses the type system to enforce correctness and
//! to avoid mistakes, such as mixing incompatible color types.
//!
//! The color types are generic over their component type `T`. Operations that
//! only move components around are specified exactly for every `T`; operations
//! that compute with components are specified through the operator
//! specifications of `T` (`add_spec`, `mul_spec`, `partial_cmp_spec`, ...),
//! which are exact for the primitive integer types.

use core::ops::Neg;
use crate::angle::{signed_angle_spec, SignedAngle};
use crate::num::Arithmetics;
use vstd::std_specs::convert::{FromSpec, IntoSpec};
use vstd::std_specs::ops::{AddSpec, MulSpec, SubSpec};
use vstd::prelude::*;
use vstd::std_specs::cmp::{OrdSpec, PartialEqSpec, PartialOrdIs, PartialOrdSpec};
use vstd::std_specs::ops::NegSpec;

pub mod alpha;
pub mod angle;
pub mod component;
pub mod convert;
pub mod encoding;
pub mod hsluv;
pub mod hsv;
pub mod hues;
pub mod hwb;
pub mod lab;
pub mod lch;
pub mod lchuv;
pub mod lms;
pub mod luma;
pub mod matrix;
pub mod num;
pub mod ok_utils;
pub mod okhsl;
pub mod okhsv;
pub mod okhwb;
pub mod oklab;
pub mod oklch;
pub mod oklrab;
pub mod oklrch;
pub mod pipeline;
pub mod white_point;

pub use alpha::Alpha;
pub use component::{Component, FromComponent, IntoComponent};
pub use convert::FromColorUnclamped;
pub use encoding::Srgb;
pub use hsluv::{Hsluv, Hsluva};
pub use hsv::{Hsv, Hsva};
pub use hues::{LabHue, LuvHue, OklabHue, RgbHue};
pub use hwb::{Hwb, Hwba};
pub use lab::{Lab, Laba};
pub use lch::{Lch, Lcha};
pub use lchuv::{Lchuv, Lchuva};
pub use lms::{
    Bradford, HasLmsMatrix, LmsToXyz, Lms, Lmsa, UnitMatrix, VonKries, WithLmsMatrix, XyzToLms,
};
pub use luma::{Luma, LumaStandard, Lumaa};
pub use matrix::{Mat3, Vec3};
pub use okhsl::{Okhsl, Okhsla};
pub use okhsv::{Okhsv, Okhsva};
pub use okhwb::{Okhwb, Okhwba};
pub use oklab::{Oklab, Oklaba};
pub use oklch::{Oklch, Oklcha};
pub use oklrab::{Oklrab, Oklraba};
pub use oklrch::{Oklrch, Oklrcha};
pub use pipeline::Pipeline;
pub use white_point::D65;

verus! {

/// The value that `clamp` gives `v` within `[min, max]`, by `T`'s ordering.
pub open spec fn clamp_spec<T: PartialOrd>(v: T, min: T, max: T) -> T {
    if v.is_lt(&min) {
        min
    } else if v.is_gt(&max) {
        max
    } else {
        v
    }
}

/// Clamp `v` to the range `[min, max]`.
pub fn clamp<T: PartialOrd>(v: T, min: T, max: T) -> (r: T)
    ensures
        T::obeys_partial_cmp_spec() ==> r == clamp_spec(v, min, max),
{
    if v < min {
        min
    } else if v > max {
        max
    } else {
        v
    }
}

/// `v` lies within `[min, max]` by `T`'s ordering.
pub open spec fn within_spec<T: PartialOrd>(v: T, min: T, max: T) -> bool {
    v.is_ge(&min) && v.is_le(&max)
}

/// The value that `clamp_min` gives `v` with lower limit `min`.
pub open spec fn clamp_min_spec<T: PartialOrd>(v: T, min: T) -> T {
    if v.is_lt(&min) {
        min
    } else {
        v
    }
}

/// Clamp `v` to be at least `min`.
pub fn clamp_min<T: PartialOrd>(v: T, min: T) -> (r: T)
    ensures
        T::obeys_partial_cmp_spec() ==> r == clamp_min_spec(v, min),
{
    if v < min {
        min
    } else {
        v
    }
}

/// Clamp `value` in place to the range `[min, max]`.
pub fn clamp_assign<T: PartialOrd>(value: &mut T, min: T, max: T)
    ensures
        T::obeys_partial_cmp_spec() ==> *final(value) == clamp_spec(*old(value), min, max),
{
    if *value < min {
        *value = min;
    } else if *value > max {
        *value = max;
    }
}

/// Clamp `value` in place to be at least `min`.
pub fn clamp_min_assign<T: PartialOrd>(value: &mut T, min: T)
    ensures
        T::obeys_partial_cmp_spec() ==> *final(value) == clamp_min_spec(*old(value), min),
{
    if *value < min {
        *value = min;
    }
}

/// Clamping to `[min, max]`, where `min <= max` in a total order, gives a
/// value within `[min, max]`; a value already within the range is left as it
/// is, so clamping twice is the same as clamping once.
pub proof fn law_clamp_within<T: Ord>(v: T, min: T, max: T)
    requires
        vstd::laws_cmp::obeys_cmp::<T>(),
        min.is_le(&max),
    ensures
        within_spec(clamp_spec(v, min, max), min, max),
        within_spec(v, min, max) ==> clamp_spec(v, min, max) == v,
        clamp_spec(clamp_spec(v, min, max), min, max) == clamp_spec(v, min, max),
{
    reveal(vstd::laws_cmp::obeys_partial_cmp_spec_properties);
    reveal(vstd::laws_cmp::obeys_cmp_partial_ord);
    reveal(vstd::laws_cmp::obeys_cmp_ord);
    assert(min.partial_cmp_spec(&min) == Some(min.cmp_spec(&min)));
    assert(max.partial_cmp_spec(&max) == Some(max.cmp_spec(&max)));
    assert(max.partial_cmp_spec(&min) == Some(max.cmp_spec(&min)));
    assert(v.partial_cmp_spec(&min) == Some(v.cmp_spec(&min)));
    assert(v.partial_cmp_spec(&max) == Some(v.cmp_spec(&max)));
    if min.partial_cmp_spec(&max) == Some(core::cmp::Ordering::Equal) {
        assert(min.eq_spec(&max));
        assert(max.eq_spec(&min));
    }
}

/// Raising a value to at least `min`, in a total order, gives a value no
/// smaller than `min`, and leaves a value that is already large enough as it
/// is.
pub proof fn law_clamp_min_at_least<T: Ord>(v: T, min: T)
    requires
        vstd::laws_cmp::obeys_cmp::<T>(),
    ensures
        clamp_min_spec(v, min).is_ge(&min),
        v.is_ge(&min) ==> clamp_min_spec(v, min) == v,
        clamp_min_spec(clamp_min_spec(v, min), min) == clamp_min_spec(v, min),
{
    reveal(vstd::laws_cmp::obeys_partial_cmp_spec_properties);
    reveal(vstd::laws_cmp::obeys_cmp_partial_ord);
    reveal(vstd::laws_cmp::obeys_cmp_ord);
    assert(min.partial_cmp_spec(&min) == Some(min.cmp_spec(&min)));
    assert(v.partial_cmp_spec(&min) == Some(v.cmp_spec(&min)));
}

/// With `i32` components, moving by the fraction `0` stays at `a`, and moving
/// by the fraction `1` arrives at `b`.
pub proof fn law_lerp_ends_i32(a: i32, b: i32)
    requires
        lerp_req(a, b, unit_factor_spec(0i32)),
        lerp_req(a, b, unit_factor_spec(1i32)),
    ensures
        lerp_spec(a, b, unit_factor_spec(0i32)) == a,
        lerp_spec(a, b, unit_factor_spec(1i32)) == b,
{
    assert(<i32 as FromSpec<i16>>::from_spec(0i16) == 0i32);
    assert(<i32 as FromSpec<i16>>::from_spec(1i16) == 1i32);
    assert(unit_factor_spec(0i32) == 0i32);
    assert(unit_factor_spec(1i32) == 1i32);
}

/// With `i32` hues, turning by the fraction `0` stays at `a`, and turning by
/// the fraction `1` arrives at the direction of `b`: the result differs from
/// `b` by whole turns.
pub proof fn law_hue_lerp_ends_i32(a: i32, b: i32)
    requires
        hue_lerp_req(a, b, unit_factor_spec(0i32)),
        hue_lerp_req(a, b, unit_factor_spec(1i32)),
    ensures
        hue_lerp_spec(a, b, unit_factor_spec(0i32)) == a,
        (hue_lerp_spec(a, b, unit_factor_spec(1i32)) - b) % 360 == 0,
{
    assert(<i32 as FromSpec<i16>>::from_spec(0i16) == 0i32);
    assert(<i32 as FromSpec<i16>>::from_spec(1i16) == 1i32);
    assert(unit_factor_spec(0i32) == 0i32);
    assert(unit_factor_spec(1i32) == 1i32);
    let d = (b - a) as i32;
    crate::angle::law_signed_angle_i32(d);
    assert(d.signed_angle() == signed_angle_spec(d));
}

/// Whether `-v` can be computed.
pub open spec fn negation_allowed<S: Neg>(v: S) -> bool {
    v.neg_req()
}

/// A trait for clamping and checking if colors are within their ranges.
pub trait Limited: Sized {
    /// Whether the component arithmetic that checking and clamping need can
    /// be done on `self`.
    spec fn limited_req(&self) -> bool;

    /// Whether the component type's comparisons and arithmetic behave as
    /// their specifications say, so that `valid_spec` and `clamped_spec`
    /// describe what the methods compute.
    spec fn obeys_limited_spec() -> bool;

    /// Whether the color's components are within their ranges.
    spec fn valid_spec(&self) -> bool;

    /// The color with its components clamped to the nearest valid values.
    spec fn clamped_spec(&self) -> Self;

    /// Check if the color's components are within the expected ranges.
    fn is_valid(&self) -> (r: bool)
        requires
            self.limited_req(),
        ensures
            Self::obeys_limited_spec() ==> r == self.valid_spec(),
    ;

    /// Return a new color where the components has been clamped to the nearest
    /// valid values.
    fn clamp(&self) -> (r: Self)
        requires
            self.limited_req(),
        ensures
            Self::obeys_limited_spec() ==> r == self.clamped_spec(),
    ;

    /// Clamp the color's components to the nearest valid values.
    fn clamp_self(&mut self)
        requires
            old(self).limited_req(),
        ensures
            Self::obeys_limited_spec() ==> *final(self) == old(self).clamped_spec(),
    ;
}

/// A trait for linear color interpolation.
pub trait Mix: Sized {
    /// The type of the mixing factor.
    type Scalar;

    /// Whether the component arithmetic of mixing `self` with `other` by
    /// `factor` can be done.
    spec fn mix_req(&self, other: &Self, factor: Self::Scalar) -> bool;

    /// The color that mixing `self` with `other` by `factor` gives.
    spec fn mix_spec(&self, other: &Self, factor: Self::Scalar) -> Self;

    /// Mix the color with an other color, by `factor`.
    ///
    /// `factor` should be between `0.0` and `1.0`, where `0.0` will result in
    /// the same color as `self` and `1.0` will result in the same color as
    /// `other`.
    fn mix(&self, other: &Self, factor: Self::Scalar) -> (r: Self)
        requires
            self.mix_req(other, factor),
        ensures
            r == self.mix_spec(other, factor),
    ;
}

/// `factor` clamped to `[0, 1]`.
pub open spec fn unit_factor_spec<T: PartialOrd + From<i16>>(factor: T) -> T {
    clamp_spec(factor, T::from_spec(0i16), T::from_spec(1i16))
}

/// `a` moved by the fraction `factor` of the way to `b`: `a + factor * (b - a)`.
pub open spec fn lerp_spec<T: Arithmetics>(a: T, b: T, factor: T) -> T {
    a.add_spec(factor.mul_spec(b.sub_spec(a)))
}

/// `a + factor * (b - a)` computes without overflow.
pub open spec fn lerp_req<T: Arithmetics>(a: T, b: T, factor: T) -> bool {
    &&& b.sub_req(a)
    &&& factor.mul_req(b.sub_spec(a))
    &&& a.add_req(factor.mul_spec(b.sub_spec(a)))
}

/// The hue `a` turned by the fraction `factor` of the shortest turn to `b`:
/// `a + factor * d`, where `d` is `b - a` normalized to `(-180, 180]`.
pub open spec fn hue_lerp_spec<T: Arithmetics + PartialOrd + From<i16>>(
    a: T,
    b: T,
    factor: T,
) -> T {
    a.add_spec(factor.mul_spec(signed_angle_spec(b.sub_spec(a))))
}

/// The hue turn of `hue_lerp_spec(a, b, factor)` computes without overflow.
pub open spec fn hue_lerp_req<T: Arithmetics + PartialOrd + From<i16> + Copy>(
    a: T,
    b: T,
    factor: T,
) -> bool {
    let d = signed_angle_spec(b.sub_spec(a));
    &&& b.sub_req(a)
    &&& b.sub_spec(a).signed_angle_req()
    &&& factor.mul_req(d)
    &&& a.add_req(factor.mul_spec(d))
}

/// The `Shade` trait allows a color to be lightened or darkened.
pub trait Shade: Sized {
    /// The type of the lighten/darken amount.
    type Scalar: Neg<Output = Self::Scalar>;

    /// Whether the component arithmetic of lightening by `amount` can be done
    /// on `self`.
    spec fn lighten_req(&self, amount: Self::Scalar) -> bool;

    /// Whether the component arithmetic behaves as its specification says,
    /// so that `lighten_spec` describes what `lighten` computes.
    spec fn obeys_shade_spec() -> bool;

    /// The color lightened by `amount`.
    spec fn lighten_spec(&self, amount: Self::Scalar) -> Self;

    /// Lighten the color by `amount`.
    fn lighten(&self, amount: Self::Scalar) -> (r: Self)
        requires
            self.lighten_req(amount),
        ensures
            Self::obeys_shade_spec() ==> r == self.lighten_spec(amount),
    ;

    /// Darken the color by `amount`, which is lightening it by `-amount`.
    fn darken(&self, amount: Self::Scalar) -> (r: Self)
        requires
            negation_allowed(amount),
            Self::Scalar::obeys_neg_spec(),
            self.lighten_req(amount.neg_spec()),
        ensures
            call_ensures(Self::lighten, (self, amount.neg_spec()), r),
            Self::obeys_shade_spec() ==> r == self.lighten_spec(amount.neg_spec()),
    {
        self.lighten(amount.neg())
    }
}

/// A trait for colors where a hue may be calculated.
pub trait GetHue {
    /// The kind of hue unit this color space uses.
    type Hue;

    /// Whether the component arithmetic that `get_hue` needs can be done on
    /// `self`.
    spec fn get_hue_req(&self) -> bool;

    /// Whether the component type's comparisons and arithmetic behave as
    /// their specifications say, so that `get_hue_spec` describes what
    /// `get_hue` computes.
    spec fn obeys_get_hue_spec() -> bool;

    /// The hue of `self`, or `None` where it has no well defined hue.
    spec fn get_hue_spec(&self) -> Option<Self::Hue>;

    /// Calculate a hue if possible.
    ///
    /// Colors in the gray scale has no well defined hue and should preferably
    /// return `None`.
    fn get_hue(&self) -> (r: Option<Self::Hue>)
        requires
            self.get_hue_req(),
        ensures
            Self::obeys_get_hue_spec() ==> r == self.get_hue_spec(),
    ;
}

/// A trait for colors where the hue can be manipulated without conversion.
pub trait Hue: GetHue + Sized {
    /// Whether the hue of `self` can be shifted by the hue `amount`.
    spec fn shift_hue_req(&self, amount: Self::Hue) -> bool;

    /// `self` with its hue replaced by `hue`.
    spec fn with_hue_spec(&self, hue: Self::Hue) -> Self;

    /// Whether the hue arithmetic behaves as its specification says, so that
    /// `shift_hue_spec` describes what `shift_hue` computes.
    spec fn obeys_shift_hue_spec() -> bool;

    /// `self` with its hue shifted by `amount`.
    spec fn shift_hue_spec(&self, amount: Self::Hue) -> Self;

    /// Return a new copy of `self`, but with a specific hue: `hue` converted
    /// into the hue type.
    fn with_hue<H: Into<Self::Hue>>(&self, hue: H) -> (r: Self)
        ensures
            <H as IntoSpec<Self::Hue>>::obeys_into_spec() ==> r == self.with_hue_spec(
                hue.into_spec(),
            ),
    ;

    /// Return a new copy of `self`, but with the hue shifted by `amount`.
    fn shift_hue(&self, amount: Self::Hue) -> (r: Self)
        requires
            self.shift_hue_req(amount),
        ensures
            Self::obeys_shift_hue_spec() ==> r == self.shift_hue_spec(amount),
    ;
}

/// A trait for colors where the saturation (or chroma) can be manipulated
/// without conversion.
pub trait Saturate: Sized {
    /// The type of the (de)saturation factor.
    type Scalar: Neg<Output = Self::Scalar>;

    /// Whether the component arithmetic of saturating by `factor` can be done
    /// on `self`.
    spec fn saturate_req(&self, factor: Self::Scalar) -> bool;

    /// Increase the saturation by `factor`.
    fn saturate(&self, factor: Self::Scalar) -> Self
        requires
            self.saturate_req(factor),
    ;

    /// Decrease the saturation by `factor`, which is saturating it by
    /// `-factor`.
    fn desaturate(&self, factor: Self::Scalar) -> (r: Self)
        requires
            negation_allowed(factor),
            Self::Scalar::obeys_neg_spec(),
            self.saturate_req(factor.neg_spec()),
        ensures
            call_ensures(Self::saturate, (self, factor.neg_spec()), r),
    {
        self.saturate(factor.neg())
    }
}

/// Perform a unary or binary operation on each component of a color.
pub trait ComponentWise: Sized {
    /// The scalar type for color components.
    type Scalar;

    /// Perform a binary operation on this and an other color.
    fn component_wise<F: Fn(Self::Scalar, Self::Scalar) -> Self::Scalar>(
        &self,
        other: &Self,
        f: F,
    ) -> Self;

    /// Perform a unary operation on this color.
    fn component_wise_self<F: Fn(Self::Scalar) -> Self::Scalar>(&self, f: F) -> Self;
}

} // verus!
