//! Oklrch, a polar version of Oklrab.

use crate::alpha::Alpha;
use crate::hues::OklabHue;
use crate::num::{Zero, One};
use core::ops::{Add, Sub};
use crate::{GetHue, Hue};
use crate::{clamp, clamp_min, clamp_min_spec, clamp_spec, within_spec, Limited};
use vstd::std_specs::cmp::{PartialOrdIs, PartialOrdSpec};
use crate::{law_clamp_min_at_least, law_clamp_within};
use crate::convert::FromColorUnclamped;
use vstd::pervasive::cloned;
use vstd::std_specs::convert::IntoSpec;
use vstd::std_specs::cmp::{PartialEqSpec, PartialEqSpecImpl};
use crate::angle::AngleEq;
use vstd::prelude::*;
use vstd::std_specs::ops::{AddSpec, AddSpecImpl, SubSpec, SubSpecImpl};

verus! {

/// Oklrch, a polar version of Oklrab.
pub struct Oklrch<T> {
    /// Lr is the lightness of the color. 0 gives absolute black and 1 gives the
    /// brightest white.
    pub l: T,

    /// `chroma` is the colorfulness of the color. A color with `chroma == 0` is
    /// a shade of grey.
    pub chroma: T,

    /// h is the hue of the color, in degrees.
    pub hue: OklabHue<T>,
}

impl<T> Copy for Oklrch<T> where T: Copy {

}

impl<T> Clone for Oklrch<T> where T: Clone {
    fn clone(&self) -> (r: Oklrch<T>)
        ensures
            cloned(self.l, r.l),
            cloned(self.chroma, r.chroma),
            cloned(self.hue, r.hue),
    {
        Oklrch { l: self.l.clone(), chroma: self.chroma.clone(), hue: self.hue.clone() }
    }
}

/// Oklrch with an alpha component.
pub type Oklrcha<T> = Alpha<Oklrch<T>, T>;

impl<T> Oklrch<T> {
    /// The components of `self`, in the order that `into_components` returns them.
    pub open spec fn components_spec(self) -> (T, T, OklabHue<T>) {
        (self.l, self.chroma, self.hue)
    }

    /// The color made of `components`.
    pub open spec fn from_components_spec(components: (T, T, OklabHue<T>)) -> Self {
        Oklrch { l: components.0, chroma: components.1, hue: components.2 }
    }
}

impl<T> Oklrch<T> {
    /// Create an `Oklrch` color.
    pub fn new<H: Into<OklabHue<T>>>(l: T, chroma: T, hue: H) -> (r: Self)
        ensures
            call_ensures(<H as Into<OklabHue<T>>>::into, (hue,), r.hue),
            <H as IntoSpec<OklabHue<T>>>::obeys_into_spec() ==> r.hue == hue.into_spec(),
            r == Self::from_components_spec((l, chroma, r.hue)),
    {
        Oklrch { l, chroma, hue: hue.into() }
    }

    /// Create an `Oklrch` color, without the generic hue type.
    pub fn new_const(l: T, chroma: T, hue: OklabHue<T>) -> (r: Self)
        ensures
            r == Self::from_components_spec((l, chroma, hue)),
    {
        Oklrch { l, chroma, hue }
    }

    /// Convert to a `(l, chroma, hue)` tuple.
    pub fn into_components(self) -> (r: (T, T, OklabHue<T>))
        ensures
            r == self.components_spec(),
    {
        (self.l, self.chroma, self.hue)
    }

    /// Convert from a `(l, chroma, hue)` tuple.
    pub fn from_components<H: Into<OklabHue<T>>>(components: (T, T, H)) -> (r: Self)
        ensures
            call_ensures(<H as Into<OklabHue<T>>>::into, (components.2,), r.hue),
            <H as IntoSpec<OklabHue<T>>>::obeys_into_spec() ==> r.hue == components.2.into_spec(),
            r == Self::from_components_spec((components.0, components.1, r.hue)),
    {
        let (l, chroma, hue) = components;
        Oklrch { l, chroma, hue: hue.into() }
    }
}

impl<T> Oklrch<T> where T: Zero + One {
    /// Return the `l` value minimum.
    pub fn min_l() -> (r: T)
        ensures
            r == T::zero_spec(),
    {
        T::zero()
    }

    /// Return the `l` value maximum.
    pub fn max_l() -> (r: T)
        ensures
            r == T::one_spec(),
    {
        T::one()
    }

    /// Return the `chroma` value minimum.
    pub fn min_chroma() -> (r: T)
        ensures
            r == T::zero_spec(),
    {
        T::zero()
    }
}

impl<T, A> Alpha<Oklrch<T>, A> {
    /// Create an Oklrch color with transparency.
    pub fn new<H: Into<OklabHue<T>>>(l: T, chroma: T, hue: H, alpha: A) -> (r: Self)
        ensures
            call_ensures(<H as Into<OklabHue<T>>>::into, (hue,), r.color.hue),
            <H as IntoSpec<OklabHue<T>>>::obeys_into_spec() ==> r.color.hue == hue.into_spec(),
            r.color == Oklrch::<T>::from_components_spec((l, chroma, r.color.hue)),
            r.alpha == alpha,
    {
        Alpha { color: Oklrch::<T>::new(l, chroma, hue), alpha }
    }

    /// Create an `Oklrcha` color, without the generic hue type.
    pub fn new_const(l: T, chroma: T, hue: OklabHue<T>, alpha: A) -> (r: Self)
        ensures
            r.color == Oklrch::<T>::from_components_spec((l, chroma, hue)),
            r.alpha == alpha,
    {
        Alpha { color: Oklrch::<T>::new_const(l, chroma, hue), alpha }
    }

    /// Convert to a `(l, chroma, hue, alpha)` tuple.
    pub fn into_components(self) -> (r: (T, T, OklabHue<T>, A))
        ensures
            r == (self.color.l, self.color.chroma, self.color.hue, self.alpha),
    {
        (self.color.l, self.color.chroma, self.color.hue, self.alpha)
    }

    /// Convert from a `(l, chroma, hue, alpha)` tuple.
    pub fn from_components<H: Into<OklabHue<T>>>(components: (T, T, H, A)) -> (r: Self)
        ensures
            call_ensures(<H as Into<OklabHue<T>>>::into, (components.2,), r.color.hue),
            <H as IntoSpec<OklabHue<T>>>::obeys_into_spec() ==>
                r.color.hue == components.2.into_spec(),
            r.color == Oklrch::<T>::from_components_spec((components.0, components.1, r.color.hue)),
            r.alpha == components.3,
    {
        let (l, chroma, hue, alpha) = components;
        Alpha { color: Oklrch { l, chroma, hue: hue.into() }, alpha }
    }
}

impl<T> Add<Self> for Oklrch<T> where T: Add<Output = T> {
    type Output = Self;

    /// Add each component of `other` to the matching component.
    fn add(self, other: Self) -> (r: Self) {
        Oklrch {
            l: self.l + other.l,
            chroma: self.chroma + other.chroma,
            hue: OklabHue(self.hue.0 + other.hue.0),
        }
    }
}

impl<T> AddSpecImpl<Self> for Oklrch<T> where T: Add<Output = T> {
    open spec fn obeys_add_spec() -> bool {
        T::obeys_add_spec()
    }

    open spec fn add_req(self, rhs: Self) -> bool {
        self.l.add_req(rhs.l)
        && self.chroma.add_req(rhs.chroma)
        && self.hue.0.add_req(rhs.hue.0)
    }

    open spec fn add_spec(self, rhs: Self) -> Self {
        Oklrch {
            l: self.l.add_spec(rhs.l),
            chroma: self.chroma.add_spec(rhs.chroma),
            hue: OklabHue(self.hue.0.add_spec(rhs.hue.0)),
        }
    }
}

impl<T> Add<T> for Oklrch<T> where T: Add<Output = T> + Copy {
    type Output = Self;

    /// Add `c` to each component.
    fn add(self, c: T) -> (r: Self) {
        Oklrch {
            l: self.l + c,
            chroma: self.chroma + c,
            hue: OklabHue(self.hue.0 + c),
        }
    }
}

impl<T> AddSpecImpl<T> for Oklrch<T> where T: Add<Output = T> + Copy {
    open spec fn obeys_add_spec() -> bool {
        T::obeys_add_spec()
    }

    open spec fn add_req(self, rhs: T) -> bool {
        self.l.add_req(rhs)
        && self.chroma.add_req(rhs)
        && self.hue.0.add_req(rhs)
    }

    open spec fn add_spec(self, rhs: T) -> Self {
        Oklrch {
            l: self.l.add_spec(rhs),
            chroma: self.chroma.add_spec(rhs),
            hue: OklabHue(self.hue.0.add_spec(rhs)),
        }
    }
}

impl<T> Sub<Self> for Oklrch<T> where T: Sub<Output = T> {
    type Output = Self;

    /// Subtract each component of `other` from the matching component.
    fn sub(self, other: Self) -> (r: Self) {
        Oklrch {
            l: self.l - other.l,
            chroma: self.chroma - other.chroma,
            hue: OklabHue(self.hue.0 - other.hue.0),
        }
    }
}

impl<T> SubSpecImpl<Self> for Oklrch<T> where T: Sub<Output = T> {
    open spec fn obeys_sub_spec() -> bool {
        T::obeys_sub_spec()
    }

    open spec fn sub_req(self, rhs: Self) -> bool {
        self.l.sub_req(rhs.l)
        && self.chroma.sub_req(rhs.chroma)
        && self.hue.0.sub_req(rhs.hue.0)
    }

    open spec fn sub_spec(self, rhs: Self) -> Self {
        Oklrch {
            l: self.l.sub_spec(rhs.l),
            chroma: self.chroma.sub_spec(rhs.chroma),
            hue: OklabHue(self.hue.0.sub_spec(rhs.hue.0)),
        }
    }
}

impl<T> Sub<T> for Oklrch<T> where T: Sub<Output = T> + Copy {
    type Output = Self;

    /// Subtract `c` from each component.
    fn sub(self, c: T) -> (r: Self) {
        Oklrch {
            l: self.l - c,
            chroma: self.chroma - c,
            hue: OklabHue(self.hue.0 - c),
        }
    }
}

impl<T> SubSpecImpl<T> for Oklrch<T> where T: Sub<Output = T> + Copy {
    open spec fn obeys_sub_spec() -> bool {
        T::obeys_sub_spec()
    }

    open spec fn sub_req(self, rhs: T) -> bool {
        self.l.sub_req(rhs)
        && self.chroma.sub_req(rhs)
        && self.hue.0.sub_req(rhs)
    }

    open spec fn sub_spec(self, rhs: T) -> Self {
        Oklrch {
            l: self.l.sub_spec(rhs),
            chroma: self.chroma.sub_spec(rhs),
            hue: OklabHue(self.hue.0.sub_spec(rhs)),
        }
    }
}

impl<T> GetHue for Oklrch<T> where T: Copy {
    type Hue = OklabHue<T>;

    open spec fn get_hue_req(&self) -> bool {
        true
    }

    open spec fn obeys_get_hue_spec() -> bool {
        true
    }

    open spec fn get_hue_spec(&self) -> Option<OklabHue<T>> {
        Some(self.hue)
    }

    /// The hue, which this color always has.
    fn get_hue(&self) -> (r: Option<OklabHue<T>>)
    {
        Some(self.hue)
    }
}

impl<T> Hue for Oklrch<T> where T: Copy + Add<Output = T> {
    open spec fn shift_hue_req(&self, amount: OklabHue<T>) -> bool {
        self.hue.0.add_req(amount.0)
    }

    open spec fn with_hue_spec(&self, hue: OklabHue<T>) -> Self {
        Oklrch {
            hue,
            l: self.l,
            chroma: self.chroma,
        }
    }

    open spec fn obeys_shift_hue_spec() -> bool {
        T::obeys_add_spec()
    }

    open spec fn shift_hue_spec(&self, amount: OklabHue<T>) -> Self {
        Oklrch {
            hue: OklabHue(self.hue.0.add_spec(amount.0)),
            l: self.l,
            chroma: self.chroma,
        }
    }

    fn with_hue<H: Into<OklabHue<T>>>(&self, hue: H) -> (r: Self)
        ensures
            call_ensures(<H as Into<OklabHue<T>>>::into, (hue,), r.hue),
            <H as IntoSpec<OklabHue<T>>>::obeys_into_spec() ==> r.hue == hue.into_spec(),
            r.l == self.l,
            r.chroma == self.chroma,
    {
        Oklrch {
            hue: hue.into(),
            l: self.l,
            chroma: self.chroma,
        }
    }

    fn shift_hue(&self, amount: OklabHue<T>) -> (r: Self)
        ensures
            T::obeys_add_spec() ==> r.hue.0 == self.hue.0.add_spec(amount.0),
            r.l == self.l,
            r.chroma == self.chroma,
    {
        Oklrch {
            hue: OklabHue(self.hue.0 + amount.0),
            l: self.l,
            chroma: self.chroma,
        }
    }
}

impl<T> Oklrch<T> where T: Zero + One + PartialOrd + Copy {
    /// The components that have limits are within them.
    pub open spec fn is_valid_spec(self) -> bool {
        within_spec(self.l, T::zero_spec(), T::one_spec())
        && self.chroma.is_ge(&T::zero_spec())
    }

    /// The color with the components that have limits clamped to them.
    pub open spec fn clamp_spec(self) -> Self {
        Oklrch {
            l: clamp_spec(self.l, T::zero_spec(), T::one_spec()),
            chroma: clamp_min_spec(self.chroma, T::zero_spec()),
            hue: self.hue,
        }
    }
}

impl<T> Limited for Oklrch<T> where T: Zero + One + PartialOrd + Copy {
    open spec fn limited_req(&self) -> bool {
        true
    }

    open spec fn obeys_limited_spec() -> bool {
        T::obeys_partial_cmp_spec()
    }

    open spec fn valid_spec(&self) -> bool {
        self.is_valid_spec()
    }

    open spec fn clamped_spec(&self) -> Self {
        self.clamp_spec()
    }

    fn is_valid(&self) -> (r: bool)
        ensures
            T::obeys_partial_cmp_spec() ==> r == self.is_valid_spec(),
    {
        self.l >= Self::min_l() && self.l <= Self::max_l()
            && self.chroma >= Self::min_chroma()
    }

    fn clamp(&self) -> (r: Self)
        ensures
            T::obeys_partial_cmp_spec() ==> r == self.clamp_spec(),
    {
        let mut c = *self;
        c.clamp_self();
        c
    }

    fn clamp_self(&mut self)
        ensures
            T::obeys_partial_cmp_spec() ==> *final(self) == old(self).clamp_spec(),
    {
        self.l = clamp(self.l, Self::min_l(), Self::max_l());
        self.chroma = clamp_min(self.chroma, Self::min_chroma());
    }
}

/// Clamping gives a color whose components are within their limits, and a
/// color that is already within them is left as it is.
pub proof fn law_oklrch_clamp_is_valid<T: Zero + One + Ord + Copy>(color: Oklrch<T>)
    requires
        vstd::laws_cmp::obeys_cmp::<T>(),
        T::zero_spec().is_le(&T::one_spec()),
    ensures
        color.clamp_spec().is_valid_spec(),
        color.is_valid_spec() ==> color.clamp_spec() == color,
{
    law_clamp_within(color.l, T::zero_spec(), T::one_spec());
    law_clamp_min_at_least(color.chroma, T::zero_spec());
}

impl<T> FromColorUnclamped<Oklrch<T>> for Oklrch<T> {
    open spec fn from_color_unclamped_req(val: Oklrch<T>) -> bool {
        true
    }

    /// The same color.
    fn from_color_unclamped(color: Oklrch<T>) -> (r: Self)
        ensures
            r == color,
    {
        color
    }
}

/// `from_components` and `into_components` are inverse to each other.
pub proof fn law_oklrch_components_round_trip<T>(color: Oklrch<T>, components: (T, T, OklabHue<T>))
    ensures
        Oklrch::<T>::from_components_spec(color.components_spec()) == color,
        Oklrch::<T>::from_components_spec(components).components_spec() == components,
{
}

impl<T> PartialEq for Oklrch<T> where T: PartialEq + AngleEq {
    /// Compare the hues as directions and the other components one by one.
    fn eq(&self, other: &Self) -> (r: bool) {
        self.l == other.l && self.chroma == other.chroma && self.hue == other.hue
    }
}

impl<T> PartialEqSpecImpl for Oklrch<T> where T: PartialEq + AngleEq {
    open spec fn obeys_eq_spec() -> bool {
        T::obeys_eq_spec()
    }

    open spec fn eq_spec(&self, other: &Self) -> bool {
        self.l.eq_spec(&other.l)
        && self.chroma.eq_spec(&other.chroma)
        && self.hue.0.angle_eq_spec(&other.hue.0)
    }
}

/// The arithmetic operators (Add, Sub) act on each component on its own:
/// combining two colors combines each component of `a` with the matching
/// component of `b`, and combining a color with a number `c` combines each
/// component with `c`, by the component type's own operator.
pub proof fn law_oklrch_arithmetic_is_componentwise<T>(
    a: Oklrch<T>,
    b: Oklrch<T>,
    c: T,
    add_color: Oklrch<T>,
    add_scalar: Oklrch<T>,
    sub_color: Oklrch<T>,
    sub_scalar: Oklrch<T>,
)
    where
        T: Add<Output = T> + Sub<Output = T> + Copy,
    requires
        T::obeys_add_spec(),
        T::obeys_sub_spec(),
        call_ensures(<Oklrch<T> as Add<Oklrch<T>>>::add, (a, b), add_color),
        call_ensures(<Oklrch<T> as Add<T>>::add, (a, c), add_scalar),
        call_ensures(<Oklrch<T> as Sub<Oklrch<T>>>::sub, (a, b), sub_color),
        call_ensures(<Oklrch<T> as Sub<T>>::sub, (a, c), sub_scalar),
    ensures
        add_color.l == a.l.add_spec(b.l),
        add_color.chroma == a.chroma.add_spec(b.chroma),
        add_color.hue.0 == a.hue.0.add_spec(b.hue.0),
        add_scalar.l == a.l.add_spec(c),
        add_scalar.chroma == a.chroma.add_spec(c),
        add_scalar.hue.0 == a.hue.0.add_spec(c),
        sub_color.l == a.l.sub_spec(b.l),
        sub_color.chroma == a.chroma.sub_spec(b.chroma),
        sub_color.hue.0 == a.hue.0.sub_spec(b.hue.0),
        sub_scalar.l == a.l.sub_spec(c),
        sub_scalar.chroma == a.chroma.sub_spec(c),
        sub_scalar.hue.0 == a.hue.0.sub_spec(c),
{
}

/// With `i32` components, two colors compare equal with `==` exactly when
/// their other components are equal and their hue angles differ by whole
/// turns.
pub proof fn law_oklrch_eq_i32(a: Oklrch<i32>, b: Oklrch<i32>, r: bool)
    requires
        call_ensures(<Oklrch<i32> as PartialEq<Oklrch<i32>>>::eq, (&a, &b), r),
    ensures
        r <==> (a.l == b.l && a.chroma == b.chroma && (a.hue.0 - b.hue.0) % 360 == 0),
{
}

/// With `i64` components, two colors compare equal with `==` exactly when
/// their other components are equal and their hue angles differ by whole
/// turns.
pub proof fn law_oklrch_eq_i64(a: Oklrch<i64>, b: Oklrch<i64>, r: bool)
    requires
        call_ensures(<Oklrch<i64> as PartialEq<Oklrch<i64>>>::eq, (&a, &b), r),
    ensures
        r <==> (a.l == b.l && a.chroma == b.chroma && (a.hue.0 - b.hue.0) % 360 == 0),
{
}

/// What clamping does to each component: a component with limits is raised
/// to its lower limit when below it, lowered to its upper limit when above
/// it, and kept when within them; the other components are kept. A color is
/// valid exactly when each component with limits is within them.
pub proof fn law_oklrch_clamp_each_component<T: Zero + One + Ord + Copy>(c: Oklrch<T>)
    requires
        vstd::laws_cmp::obeys_cmp::<T>(),
        T::zero_spec().is_le(&T::one_spec()),
    ensures
        c.clamped_spec().l.is_ge(&T::zero_spec()),
        c.l.is_lt(&T::zero_spec()) ==> c.clamped_spec().l == T::zero_spec(),
        c.clamped_spec().l.is_le(&T::one_spec()),
        c.l.is_gt(&T::one_spec()) ==> c.clamped_spec().l == T::one_spec(),
        c.l.is_ge(&T::zero_spec()) && c.l.is_le(&T::one_spec()) ==> c.clamped_spec().l == c.l,
        c.clamped_spec().chroma.is_ge(&T::zero_spec()),
        c.chroma.is_lt(&T::zero_spec()) ==> c.clamped_spec().chroma == T::zero_spec(),
        c.chroma.is_ge(&T::zero_spec()) ==> c.clamped_spec().chroma == c.chroma,
        c.clamped_spec().hue == c.hue,
        c.valid_spec() <==> (c.l.is_ge(&T::zero_spec()) && c.l.is_le(&T::one_spec()) && c.chroma.is_ge(&T::zero_spec())),
{
    reveal(vstd::laws_cmp::obeys_partial_cmp_spec_properties);
    reveal(vstd::laws_cmp::obeys_cmp_partial_ord);
    reveal(vstd::laws_cmp::obeys_cmp_ord);
    crate::law_clamp_within(c.l, T::zero_spec(), T::one_spec());
    crate::law_clamp_min_at_least(c.chroma, T::zero_spec());
}

/// `get_hue` gives the hue, or `None` where the color has no well defined
/// hue.
pub proof fn law_oklrch_get_hue<T>(c: Oklrch<T>, r: Option<OklabHue<T>>)
    where
        T: Copy,
    requires
        call_ensures(Oklrch::<T>::get_hue, (&c,), r),
    ensures
        r == {
            Some(c.hue)
        },
{
}

/// Building a color from a tuple of components puts each component in its
/// own place, and `into_components` gives the components back in the same
/// order.
pub proof fn law_oklrch_components_in_place<T>(
    components: (T, T, OklabHue<T>),
    built: Oklrch<T>,
    color: Oklrch<T>,
    parts: (T, T, OklabHue<T>),
)
    requires
        call_ensures(Oklrch::<T>::from_components::<OklabHue<T>>, (components,), built),
        call_ensures(Oklrch::<T>::into_components, (color,), parts),
    ensures
        built.l == components.0,
        built.chroma == components.1,
        built.hue == components.2,
        parts == (color.l, color.chroma, color.hue),
{
    assert(call_ensures(OklabHue::<T>::from, (components.2,), built.hue));
}

} // verus!
