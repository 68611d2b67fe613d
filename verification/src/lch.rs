//! CIE L\*C\*h°, a polar version of CIE L\*a\*b\*.

use core::marker::PhantomData;
use crate::alpha::Alpha;
use crate::hues::LabHue;
use crate::num::{Zero};
use crate::white_point::D65;
use core::ops::{Add, Sub};
use crate::{GetHue, Hue};
use vstd::std_specs::cmp::{PartialOrdIs, PartialOrdSpec};
use crate::convert::FromColorUnclamped;
use vstd::pervasive::cloned;
use vstd::std_specs::convert::{FromSpecImpl, IntoSpec};
use crate::angle::{angle_arithmetic, SignedAngle};
use crate::num::Arithmetics;
use crate::{clamp, hue_lerp_req, hue_lerp_spec, lerp_req, lerp_spec, unit_factor_spec, Mix};
use crate::{law_hue_lerp_ends_i32, law_lerp_ends_i32};
use vstd::prelude::*;
use vstd::std_specs::ops::{AddSpec, AddSpecImpl, SubSpec, SubSpecImpl};

verus! {

/// CIE L\*C\*h°, a polar version of CIE L\*a\*b\*.
///
/// L\*C\*h° shares its range and perceptual uniformity with L\*a\*b\*, but
/// it's a cylindrical color space, like HSL and HSV. This gives it the same
/// ability to directly change the hue and colorfulness of a color, while
/// preserving other visual aspects.
pub struct Lch<Wp, T> {
    /// L\* is the lightness of the color. 0.0 gives absolute black and 100.0
    /// gives the brightest white.
    pub l: T,

    /// C\* is the colorfulness of the color. It's similar to saturation. 0.0
    /// gives gray scale colors, and numbers around 128-181 gives fully
    /// saturated colors.
    pub chroma: T,

    /// The hue of the color, in degrees. Decides if it's red, blue, purple,
    /// etc.
    pub hue: LabHue<T>,

    /// The white point associated with the color's illuminant and observer.
    pub white_point: PhantomData<Wp>,
}

impl<Wp, T> Copy for Lch<Wp, T> where T: Copy {

}

impl<Wp, T> Clone for Lch<Wp, T> where T: Clone {
    fn clone(&self) -> (r: Lch<Wp, T>)
        ensures
            cloned(self.l, r.l),
            cloned(self.chroma, r.chroma),
            cloned(self.hue, r.hue),
    {
        Lch {
            l: self.l.clone(),
            chroma: self.chroma.clone(),
            hue: self.hue.clone(),
            white_point: PhantomData,
        }
    }
}

/// Lch with an alpha component.
pub type Lcha<Wp, T> = Alpha<Lch<Wp, T>, T>;

impl<Wp, T> Lch<Wp, T> {
    /// The components of `self`, in the order that `into_components` returns them.
    pub open spec fn components_spec(self) -> (T, T, LabHue<T>) {
        (self.l, self.chroma, self.hue)
    }

    /// The color made of `components`.
    pub open spec fn from_components_spec(components: (T, T, LabHue<T>)) -> Self {
        Lch { l: components.0, chroma: components.1, hue: components.2, white_point: PhantomData }
    }
}

impl<Wp, T> Lch<Wp, T> {
    /// Create a CIE L\*C\*h° color with a specific white point.
    pub fn with_wp<H: Into<LabHue<T>>>(l: T, chroma: T, hue: H) -> (r: Self)
        ensures
            call_ensures(<H as Into<LabHue<T>>>::into, (hue,), r.hue),
            <H as IntoSpec<LabHue<T>>>::obeys_into_spec() ==> r.hue == hue.into_spec(),
            r == Self::from_components_spec((l, chroma, r.hue)),
    {
        Lch { l, chroma, hue: hue.into(), white_point: PhantomData }
    }

    /// Convert to a `(l, chroma, hue)` tuple.
    pub fn into_components(self) -> (r: (T, T, LabHue<T>))
        ensures
            r == self.components_spec(),
    {
        (self.l, self.chroma, self.hue)
    }

    /// Convert from a `(l, chroma, hue)` tuple.
    pub fn from_components<H: Into<LabHue<T>>>(components: (T, T, H)) -> (r: Self)
        ensures
            call_ensures(<H as Into<LabHue<T>>>::into, (components.2,), r.hue),
            <H as IntoSpec<LabHue<T>>>::obeys_into_spec() ==> r.hue == components.2.into_spec(),
            r == Self::from_components_spec((components.0, components.1, r.hue)),
    {
        let (l, chroma, hue) = components;
        Lch { l, chroma, hue: hue.into(), white_point: PhantomData }
    }
}

impl<T> Lch<D65, T> {
    /// Create a CIE L\*C\*h° color.
    pub fn new<H: Into<LabHue<T>>>(l: T, chroma: T, hue: H) -> (r: Self)
        ensures
            call_ensures(<H as Into<LabHue<T>>>::into, (hue,), r.hue),
            <H as IntoSpec<LabHue<T>>>::obeys_into_spec() ==> r.hue == hue.into_spec(),
            r == Self::from_components_spec((l, chroma, r.hue)),
    {
        Lch { l, chroma, hue: hue.into(), white_point: PhantomData }
    }
}

impl<Wp, T> Lch<Wp, T> where T: Zero {
    /// Return the `l` value minimum.
    pub fn min_l() -> (r: T)
        ensures
            r == T::zero_spec(),
    {
        T::zero()
    }

    /// Return the `chroma` value minimum.
    pub fn min_chroma() -> (r: T)
        ensures
            r == T::zero_spec(),
    {
        T::zero()
    }
}

impl<Wp, T, A> Alpha<Lch<Wp, T>, A> {
    /// Create a CIE L\*C\*h° color with transparency and a specific white
    /// point.
    pub fn with_wp<H: Into<LabHue<T>>>(l: T, chroma: T, hue: H, alpha: A) -> (r: Self)
        ensures
            call_ensures(<H as Into<LabHue<T>>>::into, (hue,), r.color.hue),
            <H as IntoSpec<LabHue<T>>>::obeys_into_spec() ==> r.color.hue == hue.into_spec(),
            r.color == Lch::<Wp, T>::from_components_spec((l, chroma, r.color.hue)),
            r.alpha == alpha,
    {
        Alpha { color: Lch::<Wp, T>::with_wp(l, chroma, hue), alpha }
    }

    /// Convert to a `(l, chroma, hue, alpha)` tuple.
    pub fn into_components(self) -> (r: (T, T, LabHue<T>, A))
        ensures
            r == (self.color.l, self.color.chroma, self.color.hue, self.alpha),
    {
        (self.color.l, self.color.chroma, self.color.hue, self.alpha)
    }

    /// Convert from a `(l, chroma, hue, alpha)` tuple.
    pub fn from_components<H: Into<LabHue<T>>>(components: (T, T, H, A)) -> (r: Self)
        ensures
            call_ensures(<H as Into<LabHue<T>>>::into, (components.2,), r.color.hue),
            <H as IntoSpec<LabHue<T>>>::obeys_into_spec() ==>
                r.color.hue == components.2.into_spec(),
            r.color == Lch::<Wp, T>::from_components_spec(
                (components.0, components.1, r.color.hue),
            ),
            r.alpha == components.3,
    {
        let (l, chroma, hue, alpha) = components;
        Alpha { color: Lch { l, chroma, hue: hue.into(), white_point: PhantomData }, alpha }
    }
}

impl<T, A> Alpha<Lch<D65, T>, A> {
    /// Create a CIE L\*C\*h° color with transparency.
    pub fn new<H: Into<LabHue<T>>>(l: T, chroma: T, hue: H, alpha: A) -> (r: Self)
        ensures
            call_ensures(<H as Into<LabHue<T>>>::into, (hue,), r.color.hue),
            <H as IntoSpec<LabHue<T>>>::obeys_into_spec() ==> r.color.hue == hue.into_spec(),
            r.color == Lch::<D65, T>::from_components_spec((l, chroma, r.color.hue)),
            r.alpha == alpha,
    {
        Alpha { color: Lch::<D65, T>::new(l, chroma, hue), alpha }
    }
}

impl<Wp, T> Add<Self> for Lch<Wp, T> where T: Add<Output = T> {
    type Output = Self;

    /// Add each component of `other` to the matching component.
    fn add(self, other: Self) -> (r: Self) {
        Lch {
            l: self.l + other.l,
            chroma: self.chroma + other.chroma,
            hue: LabHue(self.hue.0 + other.hue.0),
            white_point: PhantomData,
        }
    }
}

impl<Wp, T> AddSpecImpl<Self> for Lch<Wp, T> where T: Add<Output = T> {
    open spec fn obeys_add_spec() -> bool {
        T::obeys_add_spec()
    }

    open spec fn add_req(self, rhs: Self) -> bool {
        self.l.add_req(rhs.l)
        && self.chroma.add_req(rhs.chroma)
        && self.hue.0.add_req(rhs.hue.0)
    }

    open spec fn add_spec(self, rhs: Self) -> Self {
        Lch {
            l: self.l.add_spec(rhs.l),
            chroma: self.chroma.add_spec(rhs.chroma),
            hue: LabHue(self.hue.0.add_spec(rhs.hue.0)),
            white_point: PhantomData,
        }
    }
}

impl<Wp, T> Add<T> for Lch<Wp, T> where T: Add<Output = T> + Copy {
    type Output = Self;

    /// Add `c` to each component.
    fn add(self, c: T) -> (r: Self) {
        Lch {
            l: self.l + c,
            chroma: self.chroma + c,
            hue: LabHue(self.hue.0 + c),
            white_point: PhantomData,
        }
    }
}

impl<Wp, T> AddSpecImpl<T> for Lch<Wp, T> where T: Add<Output = T> + Copy {
    open spec fn obeys_add_spec() -> bool {
        T::obeys_add_spec()
    }

    open spec fn add_req(self, rhs: T) -> bool {
        self.l.add_req(rhs)
        && self.chroma.add_req(rhs)
        && self.hue.0.add_req(rhs)
    }

    open spec fn add_spec(self, rhs: T) -> Self {
        Lch {
            l: self.l.add_spec(rhs),
            chroma: self.chroma.add_spec(rhs),
            hue: LabHue(self.hue.0.add_spec(rhs)),
            white_point: PhantomData,
        }
    }
}

impl<Wp, T> Sub<Self> for Lch<Wp, T> where T: Sub<Output = T> {
    type Output = Self;

    /// Subtract each component of `other` from the matching component.
    fn sub(self, other: Self) -> (r: Self) {
        Lch {
            l: self.l - other.l,
            chroma: self.chroma - other.chroma,
            hue: LabHue(self.hue.0 - other.hue.0),
            white_point: PhantomData,
        }
    }
}

impl<Wp, T> SubSpecImpl<Self> for Lch<Wp, T> where T: Sub<Output = T> {
    open spec fn obeys_sub_spec() -> bool {
        T::obeys_sub_spec()
    }

    open spec fn sub_req(self, rhs: Self) -> bool {
        self.l.sub_req(rhs.l)
        && self.chroma.sub_req(rhs.chroma)
        && self.hue.0.sub_req(rhs.hue.0)
    }

    open spec fn sub_spec(self, rhs: Self) -> Self {
        Lch {
            l: self.l.sub_spec(rhs.l),
            chroma: self.chroma.sub_spec(rhs.chroma),
            hue: LabHue(self.hue.0.sub_spec(rhs.hue.0)),
            white_point: PhantomData,
        }
    }
}

impl<Wp, T> Sub<T> for Lch<Wp, T> where T: Sub<Output = T> + Copy {
    type Output = Self;

    /// Subtract `c` from each component.
    fn sub(self, c: T) -> (r: Self) {
        Lch {
            l: self.l - c,
            chroma: self.chroma - c,
            hue: LabHue(self.hue.0 - c),
            white_point: PhantomData,
        }
    }
}

impl<Wp, T> SubSpecImpl<T> for Lch<Wp, T> where T: Sub<Output = T> + Copy {
    open spec fn obeys_sub_spec() -> bool {
        T::obeys_sub_spec()
    }

    open spec fn sub_req(self, rhs: T) -> bool {
        self.l.sub_req(rhs)
        && self.chroma.sub_req(rhs)
        && self.hue.0.sub_req(rhs)
    }

    open spec fn sub_spec(self, rhs: T) -> Self {
        Lch {
            l: self.l.sub_spec(rhs),
            chroma: self.chroma.sub_spec(rhs),
            hue: LabHue(self.hue.0.sub_spec(rhs)),
            white_point: PhantomData,
        }
    }
}

impl<Wp, T> GetHue for Lch<Wp, T> where T: Zero + PartialOrd + Copy {
    type Hue = LabHue<T>;

    open spec fn get_hue_req(&self) -> bool {
        true
    }

    open spec fn obeys_get_hue_spec() -> bool {
        T::obeys_partial_cmp_spec()
    }

    open spec fn get_hue_spec(&self) -> Option<LabHue<T>> {
        (if self.chroma.is_le(&T::zero_spec()) {
            None
        } else {
            Some(self.hue)
        })
    }

    /// The hue, unless the color is a gray (no chroma).
    fn get_hue(&self) -> (r: Option<LabHue<T>>)
    {
        if self.chroma <= T::zero() { None } else { Some(self.hue) }
    }
}

impl<Wp, T> Hue for Lch<Wp, T> where T: Zero + PartialOrd + Copy + Add<Output = T> {
    open spec fn shift_hue_req(&self, amount: LabHue<T>) -> bool {
        self.hue.0.add_req(amount.0)
    }

    open spec fn with_hue_spec(&self, hue: LabHue<T>) -> Self {
        Lch {
            hue,
            l: self.l,
            chroma: self.chroma,
            white_point: PhantomData,
        }
    }

    open spec fn obeys_shift_hue_spec() -> bool {
        T::obeys_add_spec()
    }

    open spec fn shift_hue_spec(&self, amount: LabHue<T>) -> Self {
        Lch {
            hue: LabHue(self.hue.0.add_spec(amount.0)),
            l: self.l,
            chroma: self.chroma,
            white_point: PhantomData,
        }
    }

    fn with_hue<H: Into<LabHue<T>>>(&self, hue: H) -> (r: Self)
        ensures
            call_ensures(<H as Into<LabHue<T>>>::into, (hue,), r.hue),
            <H as IntoSpec<LabHue<T>>>::obeys_into_spec() ==> r.hue == hue.into_spec(),
            r.l == self.l,
            r.chroma == self.chroma,
    {
        Lch {
            hue: hue.into(),
            l: self.l,
            chroma: self.chroma,
            white_point: PhantomData,
        }
    }

    fn shift_hue(&self, amount: LabHue<T>) -> (r: Self)
        ensures
            T::obeys_add_spec() ==> r.hue.0 == self.hue.0.add_spec(amount.0),
            r.l == self.l,
            r.chroma == self.chroma,
    {
        Lch {
            hue: LabHue(self.hue.0 + amount.0),
            l: self.l,
            chroma: self.chroma,
            white_point: PhantomData,
        }
    }
}

impl<Wp, T> FromColorUnclamped<Lch<Wp, T>> for Lch<Wp, T> {
    open spec fn from_color_unclamped_req(val: Lch<Wp, T>) -> bool {
        true
    }

    /// The same color.
    fn from_color_unclamped(color: Lch<Wp, T>) -> (r: Self)
        ensures
            r == color,
    {
        color
    }
}

impl<Wp, T> From<Lch<Wp, T>> for (T, T, LabHue<T>) {
    /// The components of `color`.
    fn from(color: Lch<Wp, T>) -> (r: (T, T, LabHue<T>)) {
        color.into_components()
    }
}

impl<Wp, T> FromSpecImpl<Lch<Wp, T>> for (T, T, LabHue<T>) {
    open spec fn obeys_from_spec() -> bool {
        true
    }

    open spec fn from_spec(color: Lch<Wp, T>) -> (T, T, LabHue<T>) {
        (color.l, color.chroma, color.hue)
    }
}

impl<Wp, T, A> From<Alpha<Lch<Wp, T>, A>> for (T, T, LabHue<T>, A) {
    /// The components and the alpha of `color`.
    fn from(color: Alpha<Lch<Wp, T>, A>) -> (r: (T, T, LabHue<T>, A)) {
        color.into_components()
    }
}

impl<Wp, T, A> FromSpecImpl<Alpha<Lch<Wp, T>, A>> for (T, T, LabHue<T>, A) {
    open spec fn obeys_from_spec() -> bool {
        true
    }

    open spec fn from_spec(color: Alpha<Lch<Wp, T>, A>) -> (T, T, LabHue<T>, A) {
        (color.color.l, color.color.chroma, color.color.hue, color.alpha)
    }
}

impl<Wp, T, HH: Into<LabHue<T>>> From<(T, T, HH)> for Lch<Wp, T> {
    /// The color made of `components`, with the hue converted.
    fn from(components: (T, T, HH)) -> (r: Self) {
        Lch {
            l: components.0,
            chroma: components.1,
            hue: components.2.into(),
            white_point: PhantomData,
        }
    }
}

impl<Wp, T, HH: Into<LabHue<T>>> FromSpecImpl<(T, T, HH)> for Lch<Wp, T> {
    open spec fn obeys_from_spec() -> bool {
        <HH as IntoSpec<LabHue<T>>>::obeys_into_spec()
    }

    open spec fn from_spec(components: (T, T, HH)) -> Self {
        Lch {
            l: components.0,
            chroma: components.1,
            hue: components.2.into_spec(),
            white_point: PhantomData,
        }
    }
}

impl<Wp, T, HH: Into<LabHue<T>>, A> From<(T, T, HH, A)> for Alpha<Lch<Wp, T>, A> {
    /// The color made of `components`, with the hue converted and the last
    /// one as alpha.
    fn from(components: (T, T, HH, A)) -> (r: Self) {
        Alpha {
            color: Lch {
                l: components.0,
                chroma: components.1,
                hue: components.2.into(),
                white_point: PhantomData,
            },
            alpha: components.3,
        }
    }
}

impl<Wp, T, HH: Into<LabHue<T>>, A> FromSpecImpl<(T, T, HH, A)> for Alpha<Lch<Wp, T>, A> {
    open spec fn obeys_from_spec() -> bool {
        <HH as IntoSpec<LabHue<T>>>::obeys_into_spec()
    }

    open spec fn from_spec(components: (T, T, HH, A)) -> Self {
        Alpha {
            color: Lch {
                l: components.0,
                chroma: components.1,
                hue: components.2.into_spec(),
                white_point: PhantomData,
            },
            alpha: components.3,
        }
    }
}

impl<Wp, T> Default for Lch<Wp, T> where T: Zero {
    /// Black: all components zero.
    fn default() -> (r: Self)
        ensures
            r == Self::from_components_spec(
                (T::zero_spec(), T::zero_spec(), LabHue(T::zero_spec())),
            ),
    {
        Lch::with_wp(T::zero(), T::zero(), LabHue::from(T::zero()))
    }
}

impl<Wp, T> Mix for Lch<Wp, T> where T: Arithmetics + PartialOrd + From<i16> + Copy {
    type Scalar = T;

    open spec fn mix_req(&self, other: &Self, factor: T) -> bool {
        let f = unit_factor_spec(factor);
        &&& angle_arithmetic::<T>()
        &&& hue_lerp_req(self.hue.0, other.hue.0, f)
        &&& lerp_req(self.l, other.l, f)
        &&& lerp_req(self.chroma, other.chroma, f)
    }

    open spec fn mix_spec(&self, other: &Self, factor: T) -> Self {
        let f = unit_factor_spec(factor);
        Lch {
            hue: LabHue(hue_lerp_spec(self.hue.0, other.hue.0, f)),
            l: lerp_spec(self.l, other.l, f),
            chroma: lerp_spec(self.chroma, other.chroma, f),
            white_point: PhantomData,
        }
    }

    /// Clamps `factor` to `[0, 1]`, turns the hue by that fraction of the
    /// shortest turn towards the hue of `other`, and moves the other
    /// components by that fraction of the way to those of `other`.
    fn mix(&self, other: &Self, factor: T) -> (r: Self)
        ensures
            r.hue.0 == hue_lerp_spec(self.hue.0, other.hue.0, unit_factor_spec(factor)),
            r.l == lerp_spec(self.l, other.l, unit_factor_spec(factor)),
            r.chroma == lerp_spec(self.chroma, other.chroma, unit_factor_spec(factor)),
    {
        let factor = clamp(factor, T::from(0i16), T::from(1i16));
        let hue_diff = (other.hue.0 - self.hue.0).normalize_signed_angle();
        Lch {
            hue: LabHue(self.hue.0 + factor * hue_diff),
            l: self.l + factor * (other.l - self.l),
            chroma: self.chroma + factor * (other.chroma - self.chroma),
            white_point: PhantomData,
        }
    }
}

/// `from_components` and `into_components` are inverse to each other.
pub proof fn law_lch_components_round_trip<Wp, T>(color: Lch<Wp, T>, components: (T, T, LabHue<T>))
    ensures
        Lch::<Wp, T>::from_components_spec(color.components_spec()) == color,
        Lch::<Wp, T>::from_components_spec(components).components_spec() == components,
{
}

/// With `i32` components, mixing L\*C\*h° colors by `0` gives the first color,
/// and mixing by `1` gives the other components of the second color and a
/// hue in the direction of its hue.
pub proof fn law_lch_mix_ends<Wp>(a: Lch<Wp, i32>, b: Lch<Wp, i32>)
    requires
        a.mix_req(&b, 0i32),
        a.mix_req(&b, 1i32),
    ensures
        a.mix_spec(&b, 0i32) == a,
        (a.mix_spec(&b, 1i32).hue.0 - b.hue.0) % 360 == 0,
        lerp_spec(a.l, b.l, unit_factor_spec(1i32)) == b.l,
        lerp_spec(a.chroma, b.chroma, unit_factor_spec(1i32)) == b.chroma,
{
    law_hue_lerp_ends_i32(a.hue.0, b.hue.0);
    law_lerp_ends_i32(a.l, b.l);
    law_lerp_ends_i32(a.chroma, b.chroma);
}

/// The arithmetic operators (Add, Sub) act on each component on its own:
/// combining two colors combines each component of `a` with the matching
/// component of `b`, and combining a color with a number `c` combines each
/// component with `c`, by the component type's own operator.
pub proof fn law_lch_arithmetic_is_componentwise<Wp, T>(
    a: Lch<Wp, T>,
    b: Lch<Wp, T>,
    c: T,
    add_color: Lch<Wp, T>,
    add_scalar: Lch<Wp, T>,
    sub_color: Lch<Wp, T>,
    sub_scalar: Lch<Wp, T>,
)
    where
        T: Add<Output = T> + Sub<Output = T> + Copy,
    requires
        T::obeys_add_spec(),
        T::obeys_sub_spec(),
        call_ensures(<Lch<Wp, T> as Add<Lch<Wp, T>>>::add, (a, b), add_color),
        call_ensures(<Lch<Wp, T> as Add<T>>::add, (a, c), add_scalar),
        call_ensures(<Lch<Wp, T> as Sub<Lch<Wp, T>>>::sub, (a, b), sub_color),
        call_ensures(<Lch<Wp, T> as Sub<T>>::sub, (a, c), sub_scalar),
    ensures
        add_color.l == a.l.add_spec(b.l),
        add_color.chroma == a.chroma.add_spec(b.chroma),
        add_color.hue.0 == a.hue.0.add_spec(b.hue.0),
        add_scalar.l == a.l.add_spec(c),
        add_scalar.chroma == a.chroma.add_spec(c),
        add_scalar.hue.0 == a.hue.0.add_spec(c),
        sub_color.l == a.l.sub_spec(b.l),
        sub_color.chroma == a.chroma.sub_spec(b.chroma),
        sub_color.hue.0 == a.hue.0.sub_spec(b.hue.0),
        sub_scalar.l == a.l.sub_spec(c),
        sub_scalar.chroma == a.chroma.sub_spec(c),
        sub_scalar.hue.0 == a.hue.0.sub_spec(c),
{
}

/// `get_hue` gives the hue, or `None` where the color has no well defined
/// hue.
pub proof fn law_lch_get_hue<Wp, T>(c: Lch<Wp, T>, r: Option<LabHue<T>>)
    where
        T: Zero + PartialOrd + Copy,
    requires
        T::obeys_partial_cmp_spec(),
        call_ensures(Lch::<Wp, T>::get_hue, (&c,), r),
    ensures
        r == {
            (if c.chroma.is_le(&T::zero_spec()) {
                None
            } else {
                Some(c.hue)
            })
        },
{
}

/// Building a color from a tuple of components puts each component in its
/// own place, and `into_components` gives the components back in the same
/// order.
pub proof fn law_lch_components_in_place<Wp, T>(
    components: (T, T, LabHue<T>),
    built: Lch<Wp, T>,
    color: Lch<Wp, T>,
    parts: (T, T, LabHue<T>),
)
    requires
        call_ensures(Lch::<Wp, T>::from_components::<LabHue<T>>, (components,), built),
        call_ensures(Lch::<Wp, T>::into_components, (color,), parts),
    ensures
        built.l == components.0,
        built.chroma == components.1,
        built.hue == components.2,
        parts == (color.l, color.chroma, color.hue),
{
    assert(call_ensures(LabHue::<T>::from, (components.2,), built.hue));
}

} // verus!
