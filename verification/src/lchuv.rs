//! CIE L\*C\*uv h°uv, a polar version of CIE L\*u\*v\*.

use core::marker::PhantomData;
use crate::alpha::Alpha;
use crate::hues::LuvHue;
use crate::num::{Zero};
use core::ops::{Add, Sub};
use crate::{GetHue, Hue};
use crate::convert::FromColorUnclamped;
use vstd::pervasive::cloned;
use vstd::std_specs::convert::{FromSpecImpl, IntoSpec};
use vstd::std_specs::cmp::{PartialEqSpec, PartialEqSpecImpl};
use crate::angle::AngleEq;
use vstd::prelude::*;
use vstd::std_specs::ops::{AddSpec, AddSpecImpl, SubSpec, SubSpecImpl};

verus! {

/// CIE L\*C\*uv h°uv, a polar version of CIE L\*u\*v\*.
///
/// L\*C\*uv h°uv shares its range and perceptual uniformity with L\*u\*v\*,
/// but it's a cylindrical color space, like HSL and HSV.
pub struct Lchuv<Wp, T> {
    /// L\* is the lightness of the color. 0.0 gives absolute black and 100.0
    /// gives the brightest white.
    pub l: T,

    /// C\*uv is the colorfulness of the color. It's similar to saturation. 0.0
    /// gives gray scale colors, and numbers around 130-180 gives fully
    /// saturated colors, depending on the hue.
    pub chroma: T,

    /// The hue of the color, in degrees. Decides if it's red, blue, purple,
    /// etc.
    pub hue: LuvHue<T>,

    /// The white point associated with the color's illuminant and observer.
    pub white_point: PhantomData<Wp>,
}

impl<Wp, T> Copy for Lchuv<Wp, T> where T: Copy {

}

impl<Wp, T> Clone for Lchuv<Wp, T> where T: Clone {
    fn clone(&self) -> (r: Lchuv<Wp, T>)
        ensures
            cloned(self.l, r.l),
            cloned(self.chroma, r.chroma),
            cloned(self.hue, r.hue),
    {
        Lchuv {
            l: self.l.clone(),
            chroma: self.chroma.clone(),
            hue: self.hue.clone(),
            white_point: PhantomData,
        }
    }
}

/// Lchuv with an alpha component.
pub type Lchuva<Wp, T> = Alpha<Lchuv<Wp, T>, T>;

impl<Wp, T> Lchuv<Wp, T> {
    /// The components of `self`, in the order that `into_components` returns them.
    pub open spec fn components_spec(self) -> (T, T, LuvHue<T>) {
        (self.l, self.chroma, self.hue)
    }

    /// The color made of `components`.
    pub open spec fn from_components_spec(components: (T, T, LuvHue<T>)) -> Self {
        Lchuv { l: components.0, chroma: components.1, hue: components.2, white_point: PhantomData }
    }
}

impl<Wp, T> Lchuv<Wp, T> {
    /// Create a CIE L\*C\*uv h°uv color.
    pub fn new<H: Into<LuvHue<T>>>(l: T, chroma: T, hue: H) -> (r: Self)
        ensures
            call_ensures(<H as Into<LuvHue<T>>>::into, (hue,), r.hue),
            <H as IntoSpec<LuvHue<T>>>::obeys_into_spec() ==> r.hue == hue.into_spec(),
            r == Self::from_components_spec((l, chroma, r.hue)),
    {
        Lchuv { l, chroma, hue: hue.into(), white_point: PhantomData }
    }

    /// Create a CIE L\*C\*uv h°uv color, without the generic hue type.
    pub fn new_const(l: T, chroma: T, hue: LuvHue<T>) -> (r: Self)
        ensures
            r == Self::from_components_spec((l, chroma, hue)),
    {
        Lchuv { l, chroma, hue, white_point: PhantomData }
    }

    /// Convert to a `(l, chroma, hue)` tuple.
    pub fn into_components(self) -> (r: (T, T, LuvHue<T>))
        ensures
            r == self.components_spec(),
    {
        (self.l, self.chroma, self.hue)
    }

    /// Convert from a `(l, chroma, hue)` tuple.
    pub fn from_components<H: Into<LuvHue<T>>>(components: (T, T, H)) -> (r: Self)
        ensures
            call_ensures(<H as Into<LuvHue<T>>>::into, (components.2,), r.hue),
            <H as IntoSpec<LuvHue<T>>>::obeys_into_spec() ==> r.hue == components.2.into_spec(),
            r == Self::from_components_spec((components.0, components.1, r.hue)),
    {
        let (l, chroma, hue) = components;
        Lchuv { l, chroma, hue: hue.into(), white_point: PhantomData }
    }
}

impl<Wp, T> Lchuv<Wp, T> where T: Zero {
    /// Return the `l` value minimum.
    pub fn min_l() -> (r: T)
        ensures
            r == T::zero_spec(),
    {
        T::zero()
    }

    /// Return the `chroma` value minimum.
    pub fn min_chroma() -> (r: T)
        ensures
            r == T::zero_spec(),
    {
        T::zero()
    }
}

impl<Wp, T, A> Alpha<Lchuv<Wp, T>, A> {
    /// Create a CIE L\*C\*uv h°uv color with transparency.
    pub fn new<H: Into<LuvHue<T>>>(l: T, chroma: T, hue: H, alpha: A) -> (r: Self)
        ensures
            call_ensures(<H as Into<LuvHue<T>>>::into, (hue,), r.color.hue),
            <H as IntoSpec<LuvHue<T>>>::obeys_into_spec() ==> r.color.hue == hue.into_spec(),
            r.color == Lchuv::<Wp, T>::from_components_spec((l, chroma, r.color.hue)),
            r.alpha == alpha,
    {
        Alpha { color: Lchuv::<Wp, T>::new(l, chroma, hue), alpha }
    }

    /// Create a CIE L\*C\*uv h°uv color with transparency, without the generic
    /// hue type.
    pub fn new_const(l: T, chroma: T, hue: LuvHue<T>, alpha: A) -> (r: Self)
        ensures
            r.color == Lchuv::<Wp, T>::from_components_spec((l, chroma, hue)),
            r.alpha == alpha,
    {
        Alpha { color: Lchuv::<Wp, T>::new_const(l, chroma, hue), alpha }
    }

    /// Convert to a `(l, chroma, hue, alpha)` tuple.
    pub fn into_components(self) -> (r: (T, T, LuvHue<T>, A))
        ensures
            r == (self.color.l, self.color.chroma, self.color.hue, self.alpha),
    {
        (self.color.l, self.color.chroma, self.color.hue, self.alpha)
    }

    /// Convert from a `(l, chroma, hue, alpha)` tuple.
    pub fn from_components<H: Into<LuvHue<T>>>(components: (T, T, H, A)) -> (r: Self)
        ensures
            call_ensures(<H as Into<LuvHue<T>>>::into, (components.2,), r.color.hue),
            <H as IntoSpec<LuvHue<T>>>::obeys_into_spec() ==>
                r.color.hue == components.2.into_spec(),
            r.color == Lchuv::<Wp, T>::from_components_spec(
                (components.0, components.1, r.color.hue),
            ),
            r.alpha == components.3,
    {
        let (l, chroma, hue, alpha) = components;
        Alpha { color: Lchuv { l, chroma, hue: hue.into(), white_point: PhantomData }, alpha }
    }
}

impl<Wp, T> Add<Self> for Lchuv<Wp, T> where T: Add<Output = T> {
    type Output = Self;

    /// Add each component of `other` to the matching component.
    fn add(self, other: Self) -> (r: Self) {
        Lchuv {
            l: self.l + other.l,
            chroma: self.chroma + other.chroma,
            hue: LuvHue(self.hue.0 + other.hue.0),
            white_point: PhantomData,
        }
    }
}

impl<Wp, T> AddSpecImpl<Self> for Lchuv<Wp, T> where T: Add<Output = T> {
    open spec fn obeys_add_spec() -> bool {
        T::obeys_add_spec()
    }

    open spec fn add_req(self, rhs: Self) -> bool {
        self.l.add_req(rhs.l)
        && self.chroma.add_req(rhs.chroma)
        && self.hue.0.add_req(rhs.hue.0)
    }

    open spec fn add_spec(self, rhs: Self) -> Self {
        Lchuv {
            l: self.l.add_spec(rhs.l),
            chroma: self.chroma.add_spec(rhs.chroma),
            hue: LuvHue(self.hue.0.add_spec(rhs.hue.0)),
            white_point: PhantomData,
        }
    }
}

impl<Wp, T> Add<T> for Lchuv<Wp, T> where T: Add<Output = T> + Copy {
    type Output = Self;

    /// Add `c` to each component.
    fn add(self, c: T) -> (r: Self) {
        Lchuv {
            l: self.l + c,
            chroma: self.chroma + c,
            hue: LuvHue(self.hue.0 + c),
            white_point: PhantomData,
        }
    }
}

impl<Wp, T> AddSpecImpl<T> for Lchuv<Wp, T> where T: Add<Output = T> + Copy {
    open spec fn obeys_add_spec() -> bool {
        T::obeys_add_spec()
    }

    open spec fn add_req(self, rhs: T) -> bool {
        self.l.add_req(rhs)
        && self.chroma.add_req(rhs)
        && self.hue.0.add_req(rhs)
    }

    open spec fn add_spec(self, rhs: T) -> Self {
        Lchuv {
            l: self.l.add_spec(rhs),
            chroma: self.chroma.add_spec(rhs),
            hue: LuvHue(self.hue.0.add_spec(rhs)),
            white_point: PhantomData,
        }
    }
}

impl<Wp, T> Sub<Self> for Lchuv<Wp, T> where T: Sub<Output = T> {
    type Output = Self;

    /// Subtract each component of `other` from the matching component.
    fn sub(self, other: Self) -> (r: Self) {
        Lchuv {
            l: self.l - other.l,
            chroma: self.chroma - other.chroma,
            hue: LuvHue(self.hue.0 - other.hue.0),
            white_point: PhantomData,
        }
    }
}

impl<Wp, T> SubSpecImpl<Self> for Lchuv<Wp, T> where T: Sub<Output = T> {
    open spec fn obeys_sub_spec() -> bool {
        T::obeys_sub_spec()
    }

    open spec fn sub_req(self, rhs: Self) -> bool {
        self.l.sub_req(rhs.l)
        && self.chroma.sub_req(rhs.chroma)
        && self.hue.0.sub_req(rhs.hue.0)
    }

    open spec fn sub_spec(self, rhs: Self) -> Self {
        Lchuv {
            l: self.l.sub_spec(rhs.l),
            chroma: self.chroma.sub_spec(rhs.chroma),
            hue: LuvHue(self.hue.0.sub_spec(rhs.hue.0)),
            white_point: PhantomData,
        }
    }
}

impl<Wp, T> Sub<T> for Lchuv<Wp, T> where T: Sub<Output = T> + Copy {
    type Output = Self;

    /// Subtract `c` from each component.
    fn sub(self, c: T) -> (r: Self) {
        Lchuv {
            l: self.l - c,
            chroma: self.chroma - c,
            hue: LuvHue(self.hue.0 - c),
            white_point: PhantomData,
        }
    }
}

impl<Wp, T> SubSpecImpl<T> for Lchuv<Wp, T> where T: Sub<Output = T> + Copy {
    open spec fn obeys_sub_spec() -> bool {
        T::obeys_sub_spec()
    }

    open spec fn sub_req(self, rhs: T) -> bool {
        self.l.sub_req(rhs)
        && self.chroma.sub_req(rhs)
        && self.hue.0.sub_req(rhs)
    }

    open spec fn sub_spec(self, rhs: T) -> Self {
        Lchuv {
            l: self.l.sub_spec(rhs),
            chroma: self.chroma.sub_spec(rhs),
            hue: LuvHue(self.hue.0.sub_spec(rhs)),
            white_point: PhantomData,
        }
    }
}

impl<Wp, T> GetHue for Lchuv<Wp, T> where T: Copy {
    type Hue = LuvHue<T>;

    open spec fn get_hue_req(&self) -> bool {
        true
    }

    open spec fn obeys_get_hue_spec() -> bool {
        true
    }

    open spec fn get_hue_spec(&self) -> Option<LuvHue<T>> {
        Some(self.hue)
    }

    /// The hue, which this color always has.
    fn get_hue(&self) -> (r: Option<LuvHue<T>>)
    {
        Some(self.hue)
    }
}

impl<Wp, T> Hue for Lchuv<Wp, T> where T: Copy + Add<Output = T> {
    open spec fn shift_hue_req(&self, amount: LuvHue<T>) -> bool {
        self.hue.0.add_req(amount.0)
    }

    open spec fn with_hue_spec(&self, hue: LuvHue<T>) -> Self {
        Lchuv {
            hue,
            l: self.l,
            chroma: self.chroma,
            white_point: PhantomData,
        }
    }

    open spec fn obeys_shift_hue_spec() -> bool {
        T::obeys_add_spec()
    }

    open spec fn shift_hue_spec(&self, amount: LuvHue<T>) -> Self {
        Lchuv {
            hue: LuvHue(self.hue.0.add_spec(amount.0)),
            l: self.l,
            chroma: self.chroma,
            white_point: PhantomData,
        }
    }

    fn with_hue<H: Into<LuvHue<T>>>(&self, hue: H) -> (r: Self)
        ensures
            call_ensures(<H as Into<LuvHue<T>>>::into, (hue,), r.hue),
            <H as IntoSpec<LuvHue<T>>>::obeys_into_spec() ==> r.hue == hue.into_spec(),
            r.l == self.l,
            r.chroma == self.chroma,
    {
        Lchuv {
            hue: hue.into(),
            l: self.l,
            chroma: self.chroma,
            white_point: PhantomData,
        }
    }

    fn shift_hue(&self, amount: LuvHue<T>) -> (r: Self)
        ensures
            T::obeys_add_spec() ==> r.hue.0 == self.hue.0.add_spec(amount.0),
            r.l == self.l,
            r.chroma == self.chroma,
    {
        Lchuv {
            hue: LuvHue(self.hue.0 + amount.0),
            l: self.l,
            chroma: self.chroma,
            white_point: PhantomData,
        }
    }
}

impl<Wp, T> FromColorUnclamped<Lchuv<Wp, T>> for Lchuv<Wp, T> {
    open spec fn from_color_unclamped_req(val: Lchuv<Wp, T>) -> bool {
        true
    }

    /// The same color.
    fn from_color_unclamped(color: Lchuv<Wp, T>) -> (r: Self)
        ensures
            r == color,
    {
        color
    }
}

impl<Wp, T> From<Lchuv<Wp, T>> for (T, T, LuvHue<T>) {
    /// The components of `color`.
    fn from(color: Lchuv<Wp, T>) -> (r: (T, T, LuvHue<T>)) {
        color.into_components()
    }
}

impl<Wp, T> FromSpecImpl<Lchuv<Wp, T>> for (T, T, LuvHue<T>) {
    open spec fn obeys_from_spec() -> bool {
        true
    }

    open spec fn from_spec(color: Lchuv<Wp, T>) -> (T, T, LuvHue<T>) {
        (color.l, color.chroma, color.hue)
    }
}

impl<Wp, T, A> From<Alpha<Lchuv<Wp, T>, A>> for (T, T, LuvHue<T>, A) {
    /// The components and the alpha of `color`.
    fn from(color: Alpha<Lchuv<Wp, T>, A>) -> (r: (T, T, LuvHue<T>, A)) {
        color.into_components()
    }
}

impl<Wp, T, A> FromSpecImpl<Alpha<Lchuv<Wp, T>, A>> for (T, T, LuvHue<T>, A) {
    open spec fn obeys_from_spec() -> bool {
        true
    }

    open spec fn from_spec(color: Alpha<Lchuv<Wp, T>, A>) -> (T, T, LuvHue<T>, A) {
        (color.color.l, color.color.chroma, color.color.hue, color.alpha)
    }
}

impl<Wp, T, HH: Into<LuvHue<T>>> From<(T, T, HH)> for Lchuv<Wp, T> {
    /// The color made of `components`, with the hue converted.
    fn from(components: (T, T, HH)) -> (r: Self) {
        Lchuv {
            l: components.0,
            chroma: components.1,
            hue: components.2.into(),
            white_point: PhantomData,
        }
    }
}

impl<Wp, T, HH: Into<LuvHue<T>>> FromSpecImpl<(T, T, HH)> for Lchuv<Wp, T> {
    open spec fn obeys_from_spec() -> bool {
        <HH as IntoSpec<LuvHue<T>>>::obeys_into_spec()
    }

    open spec fn from_spec(components: (T, T, HH)) -> Self {
        Lchuv {
            l: components.0,
            chroma: components.1,
            hue: components.2.into_spec(),
            white_point: PhantomData,
        }
    }
}

impl<Wp, T, HH: Into<LuvHue<T>>, A> From<(T, T, HH, A)> for Alpha<Lchuv<Wp, T>, A> {
    /// The color made of `components`, with the hue converted and the last
    /// one as alpha.
    fn from(components: (T, T, HH, A)) -> (r: Self) {
        Alpha {
            color: Lchuv {
                l: components.0,
                chroma: components.1,
                hue: components.2.into(),
                white_point: PhantomData,
            },
            alpha: components.3,
        }
    }
}

impl<Wp, T, HH: Into<LuvHue<T>>, A> FromSpecImpl<(T, T, HH, A)> for Alpha<Lchuv<Wp, T>, A> {
    open spec fn obeys_from_spec() -> bool {
        <HH as IntoSpec<LuvHue<T>>>::obeys_into_spec()
    }

    open spec fn from_spec(components: (T, T, HH, A)) -> Self {
        Alpha {
            color: Lchuv {
                l: components.0,
                chroma: components.1,
                hue: components.2.into_spec(),
                white_point: PhantomData,
            },
            alpha: components.3,
        }
    }
}

/// `from_components` and `into_components` are inverse to each other.
pub proof fn law_lchuv_components_round_trip<Wp, T>(
    color: Lchuv<Wp, T>,
    components: (T, T, LuvHue<T>),
)
    ensures
        Lchuv::<Wp, T>::from_components_spec(color.components_spec()) == color,
        Lchuv::<Wp, T>::from_components_spec(components).components_spec() == components,
{
}

impl<Wp, T> PartialEq for Lchuv<Wp, T> where T: PartialEq + AngleEq {
    /// Compare the hues as directions and the other components one by one.
    fn eq(&self, other: &Self) -> (r: bool) {
        self.l == other.l && self.chroma == other.chroma && self.hue == other.hue
    }
}

impl<Wp, T> PartialEqSpecImpl for Lchuv<Wp, T> where T: PartialEq + AngleEq {
    open spec fn obeys_eq_spec() -> bool {
        T::obeys_eq_spec()
    }

    open spec fn eq_spec(&self, other: &Self) -> bool {
        self.l.eq_spec(&other.l)
        && self.chroma.eq_spec(&other.chroma)
        && self.hue.0.angle_eq_spec(&other.hue.0)
    }
}

/// The arithmetic operators (Add, Sub) act on each component on its own:
/// combining two colors combines each component of `a` with the matching
/// component of `b`, and combining a color with a number `c` combines each
/// component with `c`, by the component type's own operator.
pub proof fn law_lchuv_arithmetic_is_componentwise<Wp, T>(
    a: Lchuv<Wp, T>,
    b: Lchuv<Wp, T>,
    c: T,
    add_color: Lchuv<Wp, T>,
    add_scalar: Lchuv<Wp, T>,
    sub_color: Lchuv<Wp, T>,
    sub_scalar: Lchuv<Wp, T>,
)
    where
        T: Add<Output = T> + Sub<Output = T> + Copy,
    requires
        T::obeys_add_spec(),
        T::obeys_sub_spec(),
        call_ensures(<Lchuv<Wp, T> as Add<Lchuv<Wp, T>>>::add, (a, b), add_color),
        call_ensures(<Lchuv<Wp, T> as Add<T>>::add, (a, c), add_scalar),
        call_ensures(<Lchuv<Wp, T> as Sub<Lchuv<Wp, T>>>::sub, (a, b), sub_color),
        call_ensures(<Lchuv<Wp, T> as Sub<T>>::sub, (a, c), sub_scalar),
    ensures
        add_color.l == a.l.add_spec(b.l),
        add_color.chroma == a.chroma.add_spec(b.chroma),
        add_color.hue.0 == a.hue.0.add_spec(b.hue.0),
        add_scalar.l == a.l.add_spec(c),
        add_scalar.chroma == a.chroma.add_spec(c),
        add_scalar.hue.0 == a.hue.0.add_spec(c),
        sub_color.l == a.l.sub_spec(b.l),
        sub_color.chroma == a.chroma.sub_spec(b.chroma),
        sub_color.hue.0 == a.hue.0.sub_spec(b.hue.0),
        sub_scalar.l == a.l.sub_spec(c),
        sub_scalar.chroma == a.chroma.sub_spec(c),
        sub_scalar.hue.0 == a.hue.0.sub_spec(c),
{
}

/// With `i32` components, two colors compare equal with `==` exactly when
/// their other components are equal and their hue angles differ by whole
/// turns.
pub proof fn law_lchuv_eq_i32<Wp>(a: Lchuv<Wp, i32>, b: Lchuv<Wp, i32>, r: bool)
    requires
        call_ensures(<Lchuv<Wp, i32> as PartialEq<Lchuv<Wp, i32>>>::eq, (&a, &b), r),
    ensures
        r <==> (a.l == b.l && a.chroma == b.chroma && (a.hue.0 - b.hue.0) % 360 == 0),
{
}

/// With `i64` components, two colors compare equal with `==` exactly when
/// their other components are equal and their hue angles differ by whole
/// turns.
pub proof fn law_lchuv_eq_i64<Wp>(a: Lchuv<Wp, i64>, b: Lchuv<Wp, i64>, r: bool)
    requires
        call_ensures(<Lchuv<Wp, i64> as PartialEq<Lchuv<Wp, i64>>>::eq, (&a, &b), r),
    ensures
        r <==> (a.l == b.l && a.chroma == b.chroma && (a.hue.0 - b.hue.0) % 360 == 0),
{
}

/// `get_hue` gives the hue, or `None` where the color has no well defined
/// hue.
pub proof fn law_lchuv_get_hue<Wp, T>(c: Lchuv<Wp, T>, r: Option<LuvHue<T>>)
    where
        T: Copy,
    requires
        call_ensures(Lchuv::<Wp, T>::get_hue, (&c,), r),
    ensures
        r == {
            Some(c.hue)
        },
{
}

/// Building a color from a tuple of components puts each component in its
/// own place, and `into_components` gives the components back in the same
/// order.
pub proof fn law_lchuv_components_in_place<Wp, T>(
    components: (T, T, LuvHue<T>),
    built: Lchuv<Wp, T>,
    color: Lchuv<Wp, T>,
    parts: (T, T, LuvHue<T>),
)
    requires
        call_ensures(Lchuv::<Wp, T>::from_components::<LuvHue<T>>, (components,), built),
        call_ensures(Lchuv::<Wp, T>::into_components, (color,), parts),
    ensures
        built.l == components.0,
        built.chroma == components.1,
        built.hue == components.2,
        parts == (color.l, color.chroma, color.hue),
{
    assert(call_ensures(LuvHue::<T>::from, (components.2,), built.hue));
}

} // verus!
