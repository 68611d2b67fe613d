//! A Hue/Saturation/Lightness representation of Oklab in the `sRGB` color space.

use crate::alpha::Alpha;
use crate::hues::OklabHue;
use core::ops::{Add, Sub};
use crate::{GetHue, Hue};
use vstd::pervasive::cloned;
use vstd::std_specs::convert::IntoSpec;
use vstd::std_specs::cmp::{PartialEqSpec, PartialEqSpecImpl};
use crate::angle::AngleEq;
use vstd::prelude::*;
use vstd::std_specs::ops::{AddSpec, AddSpecImpl, SubSpec, SubSpecImpl};

verus! {

/// A Hue/Saturation/Lightness representation of Oklab in the `sRGB` color
/// space.
///
/// It allows changing hue, chroma and saturation while keeping the perceived
/// lightness constant.
pub struct Okhsl<T> {
    /// The hue of the color, in degrees of a circle.
    pub hue: OklabHue<T>,

    /// The saturation (freedom of black or white) of the color. 0.0 gives a
    /// gray scale color and 1.0 the most colorful color of the given lightness
    /// and hue.
    pub saturation: T,

    /// The relative luminance of the color, where 0.0 is black and 1.0 is
    /// white.
    pub lightness: T,
}

impl<T> Copy for Okhsl<T> where T: Copy {

}

impl<T> Clone for Okhsl<T> where T: Clone {
    fn clone(&self) -> (r: Okhsl<T>)
        ensures
            cloned(self.hue, r.hue),
            cloned(self.saturation, r.saturation),
            cloned(self.lightness, r.lightness),
    {
        Okhsl {
            hue: self.hue.clone(),
            saturation: self.saturation.clone(),
            lightness: self.lightness.clone(),
        }
    }
}

/// Okhsl with an alpha component.
pub type Okhsla<T> = Alpha<Okhsl<T>, T>;

impl<T> Okhsl<T> {
    /// The components of `self`, in the order that `into_components` returns them.
    pub open spec fn components_spec(self) -> (OklabHue<T>, T, T) {
        (self.hue, self.saturation, self.lightness)
    }

    /// The color made of `components`.
    pub open spec fn from_components_spec(components: (OklabHue<T>, T, T)) -> Self {
        Okhsl { hue: components.0, saturation: components.1, lightness: components.2 }
    }
}

impl<T> Okhsl<T> {
    /// Create an Okhsl color.
    pub fn new<H: Into<OklabHue<T>>>(hue: H, saturation: T, lightness: T) -> (r: Self)
        ensures
            call_ensures(<H as Into<OklabHue<T>>>::into, (hue,), r.hue),
            <H as IntoSpec<OklabHue<T>>>::obeys_into_spec() ==> r.hue == hue.into_spec(),
            r == Self::from_components_spec((r.hue, saturation, lightness)),
    {
        Okhsl { hue: hue.into(), saturation, lightness }
    }

    /// Convert to a `(hue, saturation, lightness)` tuple.
    pub fn into_components(self) -> (r: (OklabHue<T>, T, T))
        ensures
            r == self.components_spec(),
    {
        (self.hue, self.saturation, self.lightness)
    }

    /// Convert from a `(hue, saturation, lightness)` tuple.
    pub fn from_components<H: Into<OklabHue<T>>>(components: (H, T, T)) -> (r: Self)
        ensures
            call_ensures(<H as Into<OklabHue<T>>>::into, (components.0,), r.hue),
            <H as IntoSpec<OklabHue<T>>>::obeys_into_spec() ==> r.hue == components.0.into_spec(),
            r == Self::from_components_spec((r.hue, components.1, components.2)),
    {
        let (hue, saturation, lightness) = components;
        Okhsl { hue: hue.into(), saturation, lightness }
    }
}

impl<T, A> Alpha<Okhsl<T>, A> {
    /// Create an Okhsl color with transparency.
    pub fn new<H: Into<OklabHue<T>>>(hue: H, saturation: T, lightness: T, alpha: A) -> (r: Self)
        ensures
            call_ensures(<H as Into<OklabHue<T>>>::into, (hue,), r.color.hue),
            <H as IntoSpec<OklabHue<T>>>::obeys_into_spec() ==> r.color.hue == hue.into_spec(),
            r.color == Okhsl::<T>::from_components_spec((r.color.hue, saturation, lightness)),
            r.alpha == alpha,
    {
        Alpha { color: Okhsl::<T>::new(hue, saturation, lightness), alpha }
    }

    /// Convert to a `(hue, saturation, lightness, alpha)` tuple.
    pub fn into_components(self) -> (r: (OklabHue<T>, T, T, A))
        ensures
            r == (self.color.hue, self.color.saturation, self.color.lightness, self.alpha),
    {
        (self.color.hue, self.color.saturation, self.color.lightness, self.alpha)
    }

    /// Convert from a `(hue, saturation, lightness, alpha)` tuple.
    pub fn from_components(components: (OklabHue<T>, T, T, A)) -> (r: Self)
        ensures
            r.color == Okhsl::<T>::from_components_spec((components.0, components.1, components.2)),
            r.alpha == components.3,
    {
        let (hue, saturation, lightness, alpha) = components;
        Alpha { color: Okhsl { hue, saturation, lightness }, alpha }
    }
}

impl<T> Add<Self> for Okhsl<T> where T: Add<Output = T> {
    type Output = Self;

    /// Add each component of `other` to the matching component.
    fn add(self, other: Self) -> (r: Self) {
        Okhsl {
            hue: OklabHue(self.hue.0 + other.hue.0),
            saturation: self.saturation + other.saturation,
            lightness: self.lightness + other.lightness,
        }
    }
}

impl<T> AddSpecImpl<Self> for Okhsl<T> where T: Add<Output = T> {
    open spec fn obeys_add_spec() -> bool {
        T::obeys_add_spec()
    }

    open spec fn add_req(self, rhs: Self) -> bool {
        self.hue.0.add_req(rhs.hue.0)
        && self.saturation.add_req(rhs.saturation)
        && self.lightness.add_req(rhs.lightness)
    }

    open spec fn add_spec(self, rhs: Self) -> Self {
        Okhsl {
            hue: OklabHue(self.hue.0.add_spec(rhs.hue.0)),
            saturation: self.saturation.add_spec(rhs.saturation),
            lightness: self.lightness.add_spec(rhs.lightness),
        }
    }
}

impl<T> Add<T> for Okhsl<T> where T: Add<Output = T> + Copy {
    type Output = Self;

    /// Add `c` to each component.
    fn add(self, c: T) -> (r: Self) {
        Okhsl {
            hue: OklabHue(self.hue.0 + c),
            saturation: self.saturation + c,
            lightness: self.lightness + c,
        }
    }
}

impl<T> AddSpecImpl<T> for Okhsl<T> where T: Add<Output = T> + Copy {
    open spec fn obeys_add_spec() -> bool {
        T::obeys_add_spec()
    }

    open spec fn add_req(self, rhs: T) -> bool {
        self.hue.0.add_req(rhs)
        && self.saturation.add_req(rhs)
        && self.lightness.add_req(rhs)
    }

    open spec fn add_spec(self, rhs: T) -> Self {
        Okhsl {
            hue: OklabHue(self.hue.0.add_spec(rhs)),
            saturation: self.saturation.add_spec(rhs),
            lightness: self.lightness.add_spec(rhs),
        }
    }
}

impl<T> Sub<Self> for Okhsl<T> where T: Sub<Output = T> {
    type Output = Self;

    /// Subtract each component of `other` from the matching component.
    fn sub(self, other: Self) -> (r: Self) {
        Okhsl {
            hue: OklabHue(self.hue.0 - other.hue.0),
            saturation: self.saturation - other.saturation,
            lightness: self.lightness - other.lightness,
        }
    }
}

impl<T> SubSpecImpl<Self> for Okhsl<T> where T: Sub<Output = T> {
    open spec fn obeys_sub_spec() -> bool {
        T::obeys_sub_spec()
    }

    open spec fn sub_req(self, rhs: Self) -> bool {
        self.hue.0.sub_req(rhs.hue.0)
        && self.saturation.sub_req(rhs.saturation)
        && self.lightness.sub_req(rhs.lightness)
    }

    open spec fn sub_spec(self, rhs: Self) -> Self {
        Okhsl {
            hue: OklabHue(self.hue.0.sub_spec(rhs.hue.0)),
            saturation: self.saturation.sub_spec(rhs.saturation),
            lightness: self.lightness.sub_spec(rhs.lightness),
        }
    }
}

impl<T> Sub<T> for Okhsl<T> where T: Sub<Output = T> + Copy {
    type Output = Self;

    /// Subtract `c` from each component.
    fn sub(self, c: T) -> (r: Self) {
        Okhsl {
            hue: OklabHue(self.hue.0 - c),
            saturation: self.saturation - c,
            lightness: self.lightness - c,
        }
    }
}

impl<T> SubSpecImpl<T> for Okhsl<T> where T: Sub<Output = T> + Copy {
    open spec fn obeys_sub_spec() -> bool {
        T::obeys_sub_spec()
    }

    open spec fn sub_req(self, rhs: T) -> bool {
        self.hue.0.sub_req(rhs)
        && self.saturation.sub_req(rhs)
        && self.lightness.sub_req(rhs)
    }

    open spec fn sub_spec(self, rhs: T) -> Self {
        Okhsl {
            hue: OklabHue(self.hue.0.sub_spec(rhs)),
            saturation: self.saturation.sub_spec(rhs),
            lightness: self.lightness.sub_spec(rhs),
        }
    }
}

impl<T> GetHue for Okhsl<T> where T: Copy {
    type Hue = OklabHue<T>;

    open spec fn get_hue_req(&self) -> bool {
        true
    }

    open spec fn obeys_get_hue_spec() -> bool {
        true
    }

    open spec fn get_hue_spec(&self) -> Option<OklabHue<T>> {
        Some(self.hue)
    }

    /// The hue, which this color always has.
    fn get_hue(&self) -> (r: Option<OklabHue<T>>)
    {
        Some(self.hue)
    }
}

impl<T> Hue for Okhsl<T> where T: Copy + Add<Output = T> {
    open spec fn shift_hue_req(&self, amount: OklabHue<T>) -> bool {
        self.hue.0.add_req(amount.0)
    }

    open spec fn with_hue_spec(&self, hue: OklabHue<T>) -> Self {
        Okhsl {
            hue,
            saturation: self.saturation,
            lightness: self.lightness,
        }
    }

    open spec fn obeys_shift_hue_spec() -> bool {
        T::obeys_add_spec()
    }

    open spec fn shift_hue_spec(&self, amount: OklabHue<T>) -> Self {
        Okhsl {
            hue: OklabHue(self.hue.0.add_spec(amount.0)),
            saturation: self.saturation,
            lightness: self.lightness,
        }
    }

    fn with_hue<H: Into<OklabHue<T>>>(&self, hue: H) -> (r: Self)
        ensures
            call_ensures(<H as Into<OklabHue<T>>>::into, (hue,), r.hue),
            <H as IntoSpec<OklabHue<T>>>::obeys_into_spec() ==> r.hue == hue.into_spec(),
            r.saturation == self.saturation,
            r.lightness == self.lightness,
    {
        Okhsl {
            hue: hue.into(),
            saturation: self.saturation,
            lightness: self.lightness,
        }
    }

    fn shift_hue(&self, amount: OklabHue<T>) -> (r: Self)
        ensures
            T::obeys_add_spec() ==> r.hue.0 == self.hue.0.add_spec(amount.0),
            r.saturation == self.saturation,
            r.lightness == self.lightness,
    {
        Okhsl {
            hue: OklabHue(self.hue.0 + amount.0),
            saturation: self.saturation,
            lightness: self.lightness,
        }
    }
}

/// `from_components` and `into_components` are inverse to each other.
pub proof fn law_okhsl_components_round_trip<T>(color: Okhsl<T>, components: (OklabHue<T>, T, T))
    ensures
        Okhsl::<T>::from_components_spec(color.components_spec()) == color,
        Okhsl::<T>::from_components_spec(components).components_spec() == components,
{
}

impl<T> PartialEq for Okhsl<T> where T: PartialEq + AngleEq {
    /// Compare the hues as directions and the other components one by one.
    fn eq(&self, other: &Self) -> (r: bool) {
        self.hue == other.hue && self.saturation == other.saturation && self.lightness == other.lightness
    }
}

impl<T> PartialEqSpecImpl for Okhsl<T> where T: PartialEq + AngleEq {
    open spec fn obeys_eq_spec() -> bool {
        T::obeys_eq_spec()
    }

    open spec fn eq_spec(&self, other: &Self) -> bool {
        self.hue.0.angle_eq_spec(&other.hue.0)
        && self.saturation.eq_spec(&other.saturation)
        && self.lightness.eq_spec(&other.lightness)
    }
}

/// The arithmetic operators (Add, Sub) act on each component on its own:
/// combining two colors combines each component of `a` with the matching
/// component of `b`, and combining a color with a number `c` combines each
/// component with `c`, by the component type's own operator.
pub proof fn law_okhsl_arithmetic_is_componentwise<T>(
    a: Okhsl<T>,
    b: Okhsl<T>,
    c: T,
    add_color: Okhsl<T>,
    add_scalar: Okhsl<T>,
    sub_color: Okhsl<T>,
    sub_scalar: Okhsl<T>,
)
    where
        T: Add<Output = T> + Sub<Output = T> + Copy,
    requires
        T::obeys_add_spec(),
        T::obeys_sub_spec(),
        call_ensures(<Okhsl<T> as Add<Okhsl<T>>>::add, (a, b), add_color),
        call_ensures(<Okhsl<T> as Add<T>>::add, (a, c), add_scalar),
        call_ensures(<Okhsl<T> as Sub<Okhsl<T>>>::sub, (a, b), sub_color),
        call_ensures(<Okhsl<T> as Sub<T>>::sub, (a, c), sub_scalar),
    ensures
        add_color.hue.0 == a.hue.0.add_spec(b.hue.0),
        add_color.saturation == a.saturation.add_spec(b.saturation),
        add_color.lightness == a.lightness.add_spec(b.lightness),
        add_scalar.hue.0 == a.hue.0.add_spec(c),
        add_scalar.saturation == a.saturation.add_spec(c),
        add_scalar.lightness == a.lightness.add_spec(c),
        sub_color.hue.0 == a.hue.0.sub_spec(b.hue.0),
        sub_color.saturation == a.saturation.sub_spec(b.saturation),
        sub_color.lightness == a.lightness.sub_spec(b.lightness),
        sub_scalar.hue.0 == a.hue.0.sub_spec(c),
        sub_scalar.saturation == a.saturation.sub_spec(c),
        sub_scalar.lightness == a.lightness.sub_spec(c),
{
}

/// With `i32` components, two colors compare equal with `==` exactly when
/// their other components are equal and their hue angles differ by whole
/// turns.
pub proof fn law_okhsl_eq_i32(a: Okhsl<i32>, b: Okhsl<i32>, r: bool)
    requires
        call_ensures(<Okhsl<i32> as PartialEq<Okhsl<i32>>>::eq, (&a, &b), r),
    ensures
        r <==> (a.saturation == b.saturation && a.lightness == b.lightness && (a.hue.0 - b.hue.0) % 360 == 0),
{
}

/// With `i64` components, two colors compare equal with `==` exactly when
/// their other components are equal and their hue angles differ by whole
/// turns.
pub proof fn law_okhsl_eq_i64(a: Okhsl<i64>, b: Okhsl<i64>, r: bool)
    requires
        call_ensures(<Okhsl<i64> as PartialEq<Okhsl<i64>>>::eq, (&a, &b), r),
    ensures
        r <==> (a.saturation == b.saturation && a.lightness == b.lightness && (a.hue.0 - b.hue.0) % 360 == 0),
{
}

/// `get_hue` gives the hue, or `None` where the color has no well defined
/// hue.
pub proof fn law_okhsl_get_hue<T>(c: Okhsl<T>, r: Option<OklabHue<T>>)
    where
        T: Copy,
    requires
        call_ensures(Okhsl::<T>::get_hue, (&c,), r),
    ensures
        r == {
            Some(c.hue)
        },
{
}

/// Building a color from a tuple of components puts each component in its
/// own place, and `into_components` gives the components back in the same
/// order.
pub proof fn law_okhsl_components_in_place<T>(
    components: (OklabHue<T>, T, T),
    built: Okhsl<T>,
    color: Okhsl<T>,
    parts: (OklabHue<T>, T, T),
)
    requires
        call_ensures(Okhsl::<T>::from_components::<OklabHue<T>>, (components,), built),
        call_ensures(Okhsl::<T>::into_components, (color,), parts),
    ensures
        built.hue == components.0,
        built.saturation == components.1,
        built.lightness == components.2,
        parts == (color.hue, color.saturation, color.lightness),
{
    assert(call_ensures(OklabHue::<T>::from, (components.0,), built.hue));
}

} // verus!
