//! HSV color space.

use core::marker::PhantomData;
use crate::alpha::Alpha;
use crate::component::Component;
use crate::num::Zero;
use crate::{
    clamp, clamp_spec, hue_lerp_req, hue_lerp_spec, lerp_req, lerp_spec, unit_factor_spec,
    within_spec, GetHue, Hue, Limited, Mix,
};
use crate::angle::{angle_arithmetic, SignedAngle};
use crate::num::Arithmetics;
use vstd::std_specs::cmp::{PartialOrdIs, PartialOrdSpec};
use crate::encoding::Srgb;
use crate::hues::RgbHue;
use core::ops::{Add, Sub};
use crate::law_clamp_within;
use vstd::pervasive::cloned;
use vstd::std_specs::convert::{FromSpecImpl, IntoSpec};
use crate::{law_hue_lerp_ends_i32, law_lerp_ends_i32};
use vstd::prelude::*;
use vstd::std_specs::ops::{AddSpec, AddSpecImpl, SubSpec, SubSpecImpl};

verus! {

/// HSV color space.
///
/// HSV is a cylindrical version of RGB and it's very similar to HSL. The
/// difference is that the `value` component in HSV determines the _brightness_
/// of the color, and not the _lightness_.
pub struct Hsv<S, T> {
    /// The hue of the color, in degrees. Decides if it's red, blue, purple,
    /// etc.
    pub hue: RgbHue<T>,

    /// The colorfulness of the color. 0.0 gives gray scale colors and 1.0 will
    /// give absolutely clear colors.
    pub saturation: T,

    /// Decides how bright the color will look. 0.0 will be black, and 1.0 will
    /// give a bright an clear color that goes towards white when `saturation`
    /// goes towards 0.0.
    pub value: T,

    /// The white point and RGB primaries this color is adapted to.
    pub standard: PhantomData<S>,
}

impl<S, T> Copy for Hsv<S, T> where T: Copy {

}

impl<S, T> Clone for Hsv<S, T> where T: Clone {
    fn clone(&self) -> (r: Hsv<S, T>)
        ensures
            cloned(self.hue, r.hue),
            cloned(self.saturation, r.saturation),
            cloned(self.value, r.value),
    {
        Hsv {
            hue: self.hue.clone(),
            saturation: self.saturation.clone(),
            value: self.value.clone(),
            standard: PhantomData,
        }
    }
}

/// Hsv with an alpha component.
pub type Hsva<S, T> = Alpha<Hsv<S, T>, T>;

impl<S, T> Hsv<S, T> {
    /// The components of `self`, in the order that `into_components` returns them.
    pub open spec fn components_spec(self) -> (RgbHue<T>, T, T) {
        (self.hue, self.saturation, self.value)
    }

    /// The color made of `components`.
    pub open spec fn from_components_spec(components: (RgbHue<T>, T, T)) -> Self {
        Hsv {
            hue: components.0,
            saturation: components.1,
            value: components.2,
            standard: PhantomData,
        }
    }
}

impl<S, T> Hsv<S, T> {
    /// Create an HSV color.
    pub fn new<H: Into<RgbHue<T>>>(hue: H, saturation: T, value: T) -> (r: Self)
        ensures
            call_ensures(<H as Into<RgbHue<T>>>::into, (hue,), r.hue),
            <H as IntoSpec<RgbHue<T>>>::obeys_into_spec() ==> r.hue == hue.into_spec(),
            r == Self::from_components_spec((r.hue, saturation, value)),
    {
        Hsv { hue: hue.into(), saturation, value, standard: PhantomData }
    }

    /// Create an HSV color. This is the same as `Hsv::new` without the generic
    /// hue type.
    pub fn new_const(hue: RgbHue<T>, saturation: T, value: T) -> (r: Self)
        ensures
            r == Self::from_components_spec((hue, saturation, value)),
    {
        Hsv { hue, saturation, value, standard: PhantomData }
    }

    /// Convert to a `(hue, saturation, value)` tuple.
    pub fn into_components(self) -> (r: (RgbHue<T>, T, T))
        ensures
            r == self.components_spec(),
    {
        (self.hue, self.saturation, self.value)
    }

    /// Convert from a `(hue, saturation, value)` tuple.
    pub fn from_components<H: Into<RgbHue<T>>>(components: (H, T, T)) -> (r: Self)
        ensures
            call_ensures(<H as Into<RgbHue<T>>>::into, (components.0,), r.hue),
            <H as IntoSpec<RgbHue<T>>>::obeys_into_spec() ==> r.hue == components.0.into_spec(),
            r == Self::from_components_spec((r.hue, components.1, components.2)),
    {
        let (hue, saturation, value) = components;
        Hsv { hue: hue.into(), saturation, value, standard: PhantomData }
    }
}

impl<T> Hsv<Srgb, T> {
    /// Create an sRGB HSV color. This method can be used instead of `Hsv::new`
    /// to help type inference.
    pub fn new_srgb<H: Into<RgbHue<T>>>(hue: H, saturation: T, value: T) -> (r: Self)
        ensures
            call_ensures(<H as Into<RgbHue<T>>>::into, (hue,), r.hue),
            <H as IntoSpec<RgbHue<T>>>::obeys_into_spec() ==> r.hue == hue.into_spec(),
            r == Self::from_components_spec((r.hue, saturation, value)),
    {
        Hsv { hue: hue.into(), saturation, value, standard: PhantomData }
    }

    /// Create an sRGB HSV color. This is the same as `Hsv::new_srgb` without
    /// the generic hue type.
    pub fn new_srgb_const(hue: RgbHue<T>, saturation: T, value: T) -> (r: Self)
        ensures
            r == Self::from_components_spec((hue, saturation, value)),
    {
        Hsv { hue, saturation, value, standard: PhantomData }
    }
}

impl<S, T> Hsv<S, T> where T: Component {
    /// Return the `saturation` value minimum.
    pub fn min_saturation() -> (r: T)
        ensures
            r == T::zero_spec(),
    {
        T::zero()
    }

    /// Return the `saturation` value maximum.
    pub fn max_saturation() -> (r: T)
        ensures
            r == T::max_intensity_spec(),
    {
        T::max_intensity()
    }

    /// Return the `value` value minimum.
    pub fn min_value() -> (r: T)
        ensures
            r == T::zero_spec(),
    {
        T::zero()
    }

    /// Return the `value` value maximum.
    pub fn max_value() -> (r: T)
        ensures
            r == T::max_intensity_spec(),
    {
        T::max_intensity()
    }
}

impl<S, T, A> Alpha<Hsv<S, T>, A> {
    /// Create an HSV color with transparency.
    pub fn new<H: Into<RgbHue<T>>>(hue: H, saturation: T, value: T, alpha: A) -> (r: Self)
        ensures
            call_ensures(<H as Into<RgbHue<T>>>::into, (hue,), r.color.hue),
            <H as IntoSpec<RgbHue<T>>>::obeys_into_spec() ==> r.color.hue == hue.into_spec(),
            r.color == Hsv::<S, T>::from_components_spec((r.color.hue, saturation, value)),
            r.alpha == alpha,
    {
        Alpha { color: Hsv::<S, T>::new(hue, saturation, value), alpha }
    }

    /// Create an HSV color with transparency, without the generic hue type.
    pub fn new_const(hue: RgbHue<T>, saturation: T, value: T, alpha: A) -> (r: Self)
        ensures
            r.color == Hsv::<S, T>::from_components_spec((hue, saturation, value)),
            r.alpha == alpha,
    {
        Alpha { color: Hsv::<S, T>::new_const(hue, saturation, value), alpha }
    }

    /// Convert to a `(hue, saturation, value, alpha)` tuple.
    pub fn into_components(self) -> (r: (RgbHue<T>, T, T, A))
        ensures
            r == (self.color.hue, self.color.saturation, self.color.value, self.alpha),
    {
        (self.color.hue, self.color.saturation, self.color.value, self.alpha)
    }

    /// Convert from a `(hue, saturation, value, alpha)` tuple.
    pub fn from_components<H: Into<RgbHue<T>>>(components: (H, T, T, A)) -> (r: Self)
        ensures
            call_ensures(<H as Into<RgbHue<T>>>::into, (components.0,), r.color.hue),
            <H as IntoSpec<RgbHue<T>>>::obeys_into_spec() ==>
                r.color.hue == components.0.into_spec(),
            r.color == Hsv::<S, T>::from_components_spec((r.color.hue, components.1, components.2)),
            r.alpha == components.3,
    {
        let (hue, saturation, value, alpha) = components;
        Alpha { color: Hsv { hue: hue.into(), saturation, value, standard: PhantomData }, alpha }
    }
}

impl<T, A> Alpha<Hsv<Srgb, T>, A> {
    /// Create an sRGB HSV color with transparency.
    pub fn new_srgb<H: Into<RgbHue<T>>>(hue: H, saturation: T, value: T, alpha: A) -> (r: Self)
        ensures
            call_ensures(<H as Into<RgbHue<T>>>::into, (hue,), r.color.hue),
            <H as IntoSpec<RgbHue<T>>>::obeys_into_spec() ==> r.color.hue == hue.into_spec(),
            r.color == Hsv::<Srgb, T>::from_components_spec((r.color.hue, saturation, value)),
            r.alpha == alpha,
    {
        Alpha { color: Hsv::<Srgb, T>::new_srgb(hue, saturation, value), alpha }
    }

    /// Create an sRGB HSV color with transparency, without the generic hue
    /// type.
    pub fn new_srgb_const(hue: RgbHue<T>, saturation: T, value: T, alpha: A) -> (r: Self)
        ensures
            r.color == Hsv::<Srgb, T>::from_components_spec((hue, saturation, value)),
            r.alpha == alpha,
    {
        Alpha { color: Hsv::<Srgb, T>::new_srgb_const(hue, saturation, value), alpha }
    }
}

impl<S, T> GetHue for Hsv<S, T> where T: Zero + PartialOrd + Copy {
    type Hue = RgbHue<T>;

    open spec fn get_hue_req(&self) -> bool {
        true
    }

    open spec fn obeys_get_hue_spec() -> bool {
        T::obeys_partial_cmp_spec()
    }

    open spec fn get_hue_spec(&self) -> Option<RgbHue<T>> {
        if self.saturation.is_le(&T::zero_spec())
            || self.value.is_le(&T::zero_spec()) {
            None
        } else {
            Some(self.hue)
        }
    }

    /// The hue, unless the color is a gray (no saturation) or black (no
    /// value).
    fn get_hue(&self) -> (r: Option<RgbHue<T>>)
    {
        if self.saturation <= T::zero() || self.value <= T::zero() {
            None
        } else {
            Some(self.hue)
        }
    }
}

impl<S, T> Hue for Hsv<S, T> where T: Zero + PartialOrd + Copy + Add<Output = T> {
    open spec fn shift_hue_req(&self, amount: RgbHue<T>) -> bool {
        self.hue.0.add_req(amount.0)
    }

    open spec fn with_hue_spec(&self, hue: RgbHue<T>) -> Self {
        Hsv {
            hue,
            saturation: self.saturation,
            value: self.value,
            standard: PhantomData,
        }
    }

    open spec fn obeys_shift_hue_spec() -> bool {
        T::obeys_add_spec()
    }

    open spec fn shift_hue_spec(&self, amount: RgbHue<T>) -> Self {
        Hsv {
            hue: RgbHue(self.hue.0.add_spec(amount.0)),
            saturation: self.saturation,
            value: self.value,
            standard: PhantomData,
        }
    }

    fn with_hue<H: Into<RgbHue<T>>>(&self, hue: H) -> (r: Self)
        ensures
            call_ensures(<H as Into<RgbHue<T>>>::into, (hue,), r.hue),
            <H as IntoSpec<RgbHue<T>>>::obeys_into_spec() ==> r.hue == hue.into_spec(),
            r == Self::from_components_spec((r.hue, self.saturation, self.value)),
    {
        Hsv {
            hue: hue.into(),
            saturation: self.saturation,
            value: self.value,
            standard: PhantomData,
        }
    }

    fn shift_hue(&self, amount: RgbHue<T>) -> (r: Self)
        ensures
            T::obeys_add_spec() ==> r.hue.0 == self.hue.0.add_spec(amount.0),
            r == Self::from_components_spec((r.hue, self.saturation, self.value)),
    {
        Hsv {
            hue: RgbHue(self.hue.0 + amount.0),
            saturation: self.saturation,
            value: self.value,
            standard: PhantomData,
        }
    }
}

impl<S, T> Hsv<S, T> where T: Component {
    /// The saturation and the value are within their limits.
    pub open spec fn is_valid_spec(self) -> bool {
        &&& within_spec(self.saturation, T::zero_spec(), T::max_intensity_spec())
        &&& within_spec(self.value, T::zero_spec(), T::max_intensity_spec())
    }

    /// The color with the saturation and the value clamped to their limits.
    pub open spec fn clamp_spec(self) -> Self {
        Self::from_components_spec(
            (
                self.hue,
                clamp_spec(self.saturation, T::zero_spec(), T::max_intensity_spec()),
                clamp_spec(self.value, T::zero_spec(), T::max_intensity_spec()),
            ),
        )
    }
}

impl<S, T> Limited for Hsv<S, T> where T: Component {
    open spec fn limited_req(&self) -> bool {
        true
    }

    open spec fn obeys_limited_spec() -> bool {
        T::obeys_partial_cmp_spec()
    }

    open spec fn valid_spec(&self) -> bool {
        self.is_valid_spec()
    }

    open spec fn clamped_spec(&self) -> Self {
        self.clamp_spec()
    }

    fn is_valid(&self) -> (r: bool)
        ensures
            T::obeys_partial_cmp_spec() ==> r == self.is_valid_spec(),
    {
        self.saturation >= Self::min_saturation() && self.saturation <= Self::max_saturation()
            && self.value >= Self::min_value() && self.value <= Self::max_value()
    }

    fn clamp(&self) -> (r: Self)
        ensures
            T::obeys_partial_cmp_spec() ==> r == self.clamp_spec(),
    {
        let mut c = *self;
        c.clamp_self();
        c
    }

    fn clamp_self(&mut self)
        ensures
            T::obeys_partial_cmp_spec() ==> *final(self) == old(self).clamp_spec(),
    {
        self.saturation = clamp(self.saturation, Self::min_saturation(), Self::max_saturation());
        self.value = clamp(self.value, Self::min_value(), Self::max_value());
    }
}

impl<S, T> Add<Self> for Hsv<S, T> where T: Add<Output = T> {
    type Output = Self;

    /// Add each component of `other` to the matching component.
    fn add(self, other: Self) -> (r: Self) {
        Hsv {
            hue: RgbHue(self.hue.0 + other.hue.0),
            saturation: self.saturation + other.saturation,
            value: self.value + other.value,
            standard: PhantomData,
        }
    }
}

impl<S, T> AddSpecImpl<Self> for Hsv<S, T> where T: Add<Output = T> {
    open spec fn obeys_add_spec() -> bool {
        T::obeys_add_spec()
    }

    open spec fn add_req(self, rhs: Self) -> bool {
        self.hue.0.add_req(rhs.hue.0)
        && self.saturation.add_req(rhs.saturation)
        && self.value.add_req(rhs.value)
    }

    open spec fn add_spec(self, rhs: Self) -> Self {
        Hsv {
            hue: RgbHue(self.hue.0.add_spec(rhs.hue.0)),
            saturation: self.saturation.add_spec(rhs.saturation),
            value: self.value.add_spec(rhs.value),
            standard: PhantomData,
        }
    }
}

impl<S, T> Add<T> for Hsv<S, T> where T: Add<Output = T> + Copy {
    type Output = Self;

    /// Add `c` to each component.
    fn add(self, c: T) -> (r: Self) {
        Hsv {
            hue: RgbHue(self.hue.0 + c),
            saturation: self.saturation + c,
            value: self.value + c,
            standard: PhantomData,
        }
    }
}

impl<S, T> AddSpecImpl<T> for Hsv<S, T> where T: Add<Output = T> + Copy {
    open spec fn obeys_add_spec() -> bool {
        T::obeys_add_spec()
    }

    open spec fn add_req(self, rhs: T) -> bool {
        self.hue.0.add_req(rhs)
        && self.saturation.add_req(rhs)
        && self.value.add_req(rhs)
    }

    open spec fn add_spec(self, rhs: T) -> Self {
        Hsv {
            hue: RgbHue(self.hue.0.add_spec(rhs)),
            saturation: self.saturation.add_spec(rhs),
            value: self.value.add_spec(rhs),
            standard: PhantomData,
        }
    }
}

impl<S, T> Sub<Self> for Hsv<S, T> where T: Sub<Output = T> {
    type Output = Self;

    /// Subtract each component of `other` from the matching component.
    fn sub(self, other: Self) -> (r: Self) {
        Hsv {
            hue: RgbHue(self.hue.0 - other.hue.0),
            saturation: self.saturation - other.saturation,
            value: self.value - other.value,
            standard: PhantomData,
        }
    }
}

impl<S, T> SubSpecImpl<Self> for Hsv<S, T> where T: Sub<Output = T> {
    open spec fn obeys_sub_spec() -> bool {
        T::obeys_sub_spec()
    }

    open spec fn sub_req(self, rhs: Self) -> bool {
        self.hue.0.sub_req(rhs.hue.0)
        && self.saturation.sub_req(rhs.saturation)
        && self.value.sub_req(rhs.value)
    }

    open spec fn sub_spec(self, rhs: Self) -> Self {
        Hsv {
            hue: RgbHue(self.hue.0.sub_spec(rhs.hue.0)),
            saturation: self.saturation.sub_spec(rhs.saturation),
            value: self.value.sub_spec(rhs.value),
            standard: PhantomData,
        }
    }
}

impl<S, T> Sub<T> for Hsv<S, T> where T: Sub<Output = T> + Copy {
    type Output = Self;

    /// Subtract `c` from each component.
    fn sub(self, c: T) -> (r: Self) {
        Hsv {
            hue: RgbHue(self.hue.0 - c),
            saturation: self.saturation - c,
            value: self.value - c,
            standard: PhantomData,
        }
    }
}

impl<S, T> SubSpecImpl<T> for Hsv<S, T> where T: Sub<Output = T> + Copy {
    open spec fn obeys_sub_spec() -> bool {
        T::obeys_sub_spec()
    }

    open spec fn sub_req(self, rhs: T) -> bool {
        self.hue.0.sub_req(rhs)
        && self.saturation.sub_req(rhs)
        && self.value.sub_req(rhs)
    }

    open spec fn sub_spec(self, rhs: T) -> Self {
        Hsv {
            hue: RgbHue(self.hue.0.sub_spec(rhs)),
            saturation: self.saturation.sub_spec(rhs),
            value: self.value.sub_spec(rhs),
            standard: PhantomData,
        }
    }
}

/// Clamping gives a color whose components are within their limits, and a
/// color that is already within them is left as it is.
pub proof fn law_hsv_clamp_is_valid<S, T: Component + Ord>(color: Hsv<S, T>)
    requires
        vstd::laws_cmp::obeys_cmp::<T>(),
        T::zero_spec().is_le(&T::max_intensity_spec()),
    ensures
        color.clamp_spec().is_valid_spec(),
        color.is_valid_spec() ==> color.clamp_spec() == color,
{
    law_clamp_within(color.saturation, T::zero_spec(), T::max_intensity_spec());
    law_clamp_within(color.value, T::zero_spec(), T::max_intensity_spec());
}

impl<S, T> From<Hsv<S, T>> for (RgbHue<T>, T, T) {
    /// The components of `color`.
    fn from(color: Hsv<S, T>) -> (r: (RgbHue<T>, T, T)) {
        color.into_components()
    }
}

impl<S, T> FromSpecImpl<Hsv<S, T>> for (RgbHue<T>, T, T) {
    open spec fn obeys_from_spec() -> bool {
        true
    }

    open spec fn from_spec(color: Hsv<S, T>) -> (RgbHue<T>, T, T) {
        (color.hue, color.saturation, color.value)
    }
}

impl<S, T, A> From<Alpha<Hsv<S, T>, A>> for (RgbHue<T>, T, T, A) {
    /// The components and the alpha of `color`.
    fn from(color: Alpha<Hsv<S, T>, A>) -> (r: (RgbHue<T>, T, T, A)) {
        color.into_components()
    }
}

impl<S, T, A> FromSpecImpl<Alpha<Hsv<S, T>, A>> for (RgbHue<T>, T, T, A) {
    open spec fn obeys_from_spec() -> bool {
        true
    }

    open spec fn from_spec(color: Alpha<Hsv<S, T>, A>) -> (RgbHue<T>, T, T, A) {
        (color.color.hue, color.color.saturation, color.color.value, color.alpha)
    }
}

impl<S, T, HH: Into<RgbHue<T>>> From<(HH, T, T)> for Hsv<S, T> {
    /// The color made of `components`, with the hue converted.
    fn from(components: (HH, T, T)) -> (r: Self) {
        Hsv {
            hue: components.0.into(),
            saturation: components.1,
            value: components.2,
            standard: PhantomData,
        }
    }
}

impl<S, T, HH: Into<RgbHue<T>>> FromSpecImpl<(HH, T, T)> for Hsv<S, T> {
    open spec fn obeys_from_spec() -> bool {
        <HH as IntoSpec<RgbHue<T>>>::obeys_into_spec()
    }

    open spec fn from_spec(components: (HH, T, T)) -> Self {
        Hsv {
            hue: components.0.into_spec(),
            saturation: components.1,
            value: components.2,
            standard: PhantomData,
        }
    }
}

impl<S, T, HH: Into<RgbHue<T>>, A> From<(HH, T, T, A)> for Alpha<Hsv<S, T>, A> {
    /// The color made of `components`, with the hue converted and the last
    /// one as alpha.
    fn from(components: (HH, T, T, A)) -> (r: Self) {
        Alpha {
            color: Hsv {
                hue: components.0.into(),
                saturation: components.1,
                value: components.2,
                standard: PhantomData,
            },
            alpha: components.3,
        }
    }
}

impl<S, T, HH: Into<RgbHue<T>>, A> FromSpecImpl<(HH, T, T, A)> for Alpha<Hsv<S, T>, A> {
    open spec fn obeys_from_spec() -> bool {
        <HH as IntoSpec<RgbHue<T>>>::obeys_into_spec()
    }

    open spec fn from_spec(components: (HH, T, T, A)) -> Self {
        Alpha {
            color: Hsv {
                hue: components.0.into_spec(),
                saturation: components.1,
                value: components.2,
                standard: PhantomData,
            },
            alpha: components.3,
        }
    }
}

impl<S, T> Default for Hsv<S, T> where T: Zero {
    /// A black color: zero hue, saturation and value.
    fn default() -> (r: Self)
        ensures
            r == Self::from_components_spec(
                (RgbHue(T::zero_spec()), T::zero_spec(), T::zero_spec()),
            ),
    {
        Hsv::new(RgbHue::from(T::zero()), T::zero(), T::zero())
    }
}

impl<S, T> Mix for Hsv<S, T> where T: Arithmetics + PartialOrd + From<i16> + Copy {
    type Scalar = T;

    open spec fn mix_req(&self, other: &Self, factor: T) -> bool {
        let f = unit_factor_spec(factor);
        &&& angle_arithmetic::<T>()
        &&& hue_lerp_req(self.hue.0, other.hue.0, f)
        &&& lerp_req(self.saturation, other.saturation, f)
        &&& lerp_req(self.value, other.value, f)
    }

    open spec fn mix_spec(&self, other: &Self, factor: T) -> Self {
        let f = unit_factor_spec(factor);
        Hsv {
            hue: RgbHue(hue_lerp_spec(self.hue.0, other.hue.0, f)),
            saturation: lerp_spec(self.saturation, other.saturation, f),
            value: lerp_spec(self.value, other.value, f),
            standard: PhantomData,
        }
    }

    /// Clamps `factor` to `[0, 1]`, turns the hue by that fraction of the
    /// shortest turn towards the hue of `other`, and moves the other
    /// components by that fraction of the way to those of `other`.
    fn mix(&self, other: &Self, factor: T) -> (r: Self)
        ensures
            r.hue.0 == hue_lerp_spec(self.hue.0, other.hue.0, unit_factor_spec(factor)),
            r.saturation == lerp_spec(self.saturation, other.saturation, unit_factor_spec(factor)),
            r.value == lerp_spec(self.value, other.value, unit_factor_spec(factor)),
    {
        let factor = clamp(factor, T::from(0i16), T::from(1i16));
        let hue_diff = (other.hue.0 - self.hue.0).normalize_signed_angle();
        Hsv {
            hue: RgbHue(self.hue.0 + factor * hue_diff),
            saturation: self.saturation + factor * (other.saturation - self.saturation),
            value: self.value + factor * (other.value - self.value),
            standard: PhantomData,
        }
    }
}

/// `from_components` and `into_components` are inverse to each other.
pub proof fn law_hsv_components_round_trip<S, T>(color: Hsv<S, T>, components: (RgbHue<T>, T, T))
    ensures
        Hsv::<S, T>::from_components_spec(color.components_spec()) == color,
        Hsv::<S, T>::from_components_spec(components).components_spec() == components,
{
}

/// With `i32` components, mixing HSV colors by `0` gives the first color,
/// and mixing by `1` gives the other components of the second color and a
/// hue in the direction of its hue.
pub proof fn law_hsv_mix_ends<S>(a: Hsv<S, i32>, b: Hsv<S, i32>)
    requires
        a.mix_req(&b, 0i32),
        a.mix_req(&b, 1i32),
    ensures
        a.mix_spec(&b, 0i32) == a,
        (a.mix_spec(&b, 1i32).hue.0 - b.hue.0) % 360 == 0,
        lerp_spec(a.saturation, b.saturation, unit_factor_spec(1i32)) == b.saturation,
        lerp_spec(a.value, b.value, unit_factor_spec(1i32)) == b.value,
{
    law_hue_lerp_ends_i32(a.hue.0, b.hue.0);
    law_lerp_ends_i32(a.saturation, b.saturation);
    law_lerp_ends_i32(a.value, b.value);
}

/// The arithmetic operators (Add, Sub) act on each component on its own:
/// combining two colors combines each component of `a` with the matching
/// component of `b`, and combining a color with a number `c` combines each
/// component with `c`, by the component type's own operator.
pub proof fn law_hsv_arithmetic_is_componentwise<S, T>(
    a: Hsv<S, T>,
    b: Hsv<S, T>,
    c: T,
    add_color: Hsv<S, T>,
    add_scalar: Hsv<S, T>,
    sub_color: Hsv<S, T>,
    sub_scalar: Hsv<S, T>,
)
    where
        T: Add<Output = T> + Sub<Output = T> + Copy,
    requires
        T::obeys_add_spec(),
        T::obeys_sub_spec(),
        call_ensures(<Hsv<S, T> as Add<Hsv<S, T>>>::add, (a, b), add_color),
        call_ensures(<Hsv<S, T> as Add<T>>::add, (a, c), add_scalar),
        call_ensures(<Hsv<S, T> as Sub<Hsv<S, T>>>::sub, (a, b), sub_color),
        call_ensures(<Hsv<S, T> as Sub<T>>::sub, (a, c), sub_scalar),
    ensures
        add_color.hue.0 == a.hue.0.add_spec(b.hue.0),
        add_color.saturation == a.saturation.add_spec(b.saturation),
        add_color.value == a.value.add_spec(b.value),
        add_scalar.hue.0 == a.hue.0.add_spec(c),
        add_scalar.saturation == a.saturation.add_spec(c),
        add_scalar.value == a.value.add_spec(c),
        sub_color.hue.0 == a.hue.0.sub_spec(b.hue.0),
        sub_color.saturation == a.saturation.sub_spec(b.saturation),
        sub_color.value == a.value.sub_spec(b.value),
        sub_scalar.hue.0 == a.hue.0.sub_spec(c),
        sub_scalar.saturation == a.saturation.sub_spec(c),
        sub_scalar.value == a.value.sub_spec(c),
{
}

/// What clamping does to each component: a component with limits is raised
/// to its lower limit when below it, lowered to its upper limit when above
/// it, and kept when within them; the other components are kept. A color is
/// valid exactly when each component with limits is within them.
pub proof fn law_hsv_clamp_each_component<S, T: Component + Ord>(c: Hsv<S, T>)
    requires
        vstd::laws_cmp::obeys_cmp::<T>(),
        T::zero_spec().is_le(&T::max_intensity_spec()),
    ensures
        c.clamped_spec().saturation.is_ge(&T::zero_spec()),
        c.saturation.is_lt(&T::zero_spec()) ==> c.clamped_spec().saturation == T::zero_spec(),
        c.clamped_spec().saturation.is_le(&T::max_intensity_spec()),
        c.saturation.is_gt(&T::max_intensity_spec()) ==> c.clamped_spec().saturation == T::max_intensity_spec(),
        c.saturation.is_ge(&T::zero_spec()) && c.saturation.is_le(&T::max_intensity_spec()) ==> c.clamped_spec().saturation == c.saturation,
        c.clamped_spec().value.is_ge(&T::zero_spec()),
        c.value.is_lt(&T::zero_spec()) ==> c.clamped_spec().value == T::zero_spec(),
        c.clamped_spec().value.is_le(&T::max_intensity_spec()),
        c.value.is_gt(&T::max_intensity_spec()) ==> c.clamped_spec().value == T::max_intensity_spec(),
        c.value.is_ge(&T::zero_spec()) && c.value.is_le(&T::max_intensity_spec()) ==> c.clamped_spec().value == c.value,
        c.clamped_spec().hue == c.hue,
        c.valid_spec() <==> (c.saturation.is_ge(&T::zero_spec()) && c.saturation.is_le(&T::max_intensity_spec()) && c.value.is_ge(&T::zero_spec()) && c.value.is_le(&T::max_intensity_spec())),
{
    reveal(vstd::laws_cmp::obeys_partial_cmp_spec_properties);
    reveal(vstd::laws_cmp::obeys_cmp_partial_ord);
    reveal(vstd::laws_cmp::obeys_cmp_ord);
    crate::law_clamp_within(c.saturation, T::zero_spec(), T::max_intensity_spec());
    crate::law_clamp_within(c.value, T::zero_spec(), T::max_intensity_spec());
}

/// `get_hue` gives the hue, or `None` where the color has no well defined
/// hue.
pub proof fn law_hsv_get_hue<S, T>(c: Hsv<S, T>, r: Option<RgbHue<T>>)
    where
        T: Zero + PartialOrd + Copy,
    requires
        T::obeys_partial_cmp_spec(),
        call_ensures(Hsv::<S, T>::get_hue, (&c,), r),
    ensures
        r == {
            if c.saturation.is_le(&T::zero_spec())
                || c.value.is_le(&T::zero_spec()) {
                None
            } else {
                Some(c.hue)
            }
        },
{
}

/// Building a color from a tuple of components puts each component in its
/// own place, and `into_components` gives the components back in the same
/// order.
pub proof fn law_hsv_components_in_place<S, T>(
    components: (RgbHue<T>, T, T),
    built: Hsv<S, T>,
    color: Hsv<S, T>,
    parts: (RgbHue<T>, T, T),
)
    requires
        call_ensures(Hsv::<S, T>::from_components::<RgbHue<T>>, (components,), built),
        call_ensures(Hsv::<S, T>::into_components, (color,), parts),
    ensures
        built.hue == components.0,
        built.saturation == components.1,
        built.value == components.2,
        parts == (color.hue, color.saturation, color.value),
{
    assert(call_ensures(RgbHue::<T>::from, (components.0,), built.hue));
}

} // verus!
