//! A derivative of Oklab with a corrected lightness estimate, Lr.

use crate::alpha::Alpha;
use crate::num::{Zero, One};
use core::ops::{Add, Sub, Mul, Div};
use crate::{clamp, clamp_spec, within_spec, Limited};
use vstd::std_specs::cmp::{PartialOrdIs, PartialOrdSpec};
use crate::law_clamp_within;
use crate::convert::FromColorUnclamped;
use vstd::pervasive::cloned;
use vstd::std_specs::cmp::{PartialEqSpec, PartialEqSpecImpl};
use vstd::prelude::*;
use vstd::std_specs::ops::{
    AddSpec, AddSpecImpl, SubSpec, SubSpecImpl, MulSpec, MulSpecImpl, DivSpec, DivSpecImpl,
};

verus! {

/// A derivative of Oklab with a corrected lightness estimate, Lr.
///
/// Lr is closer to the CIE L\* lightness estimate than Oklab's L.
pub struct Oklrab<T> {
    /// Lr is the lightness of the color. 0 gives absolute black and 1 gives the
    /// brightest white.
    pub l: T,

    /// a goes from red to green.
    pub a: T,

    /// b goes from yellow to blue.
    pub b: T,
}

impl<T> Copy for Oklrab<T> where T: Copy {

}

impl<T> Clone for Oklrab<T> where T: Clone {
    fn clone(&self) -> (r: Oklrab<T>)
        ensures
            cloned(self.l, r.l),
            cloned(self.a, r.a),
            cloned(self.b, r.b),
    {
        Oklrab { l: self.l.clone(), a: self.a.clone(), b: self.b.clone() }
    }
}

/// Oklrab with an alpha component.
pub type Oklraba<T> = Alpha<Oklrab<T>, T>;

impl<T> Oklrab<T> {
    /// The components of `self`, in the order that `into_components` returns them.
    pub open spec fn components_spec(self) -> (T, T, T) {
        (self.l, self.a, self.b)
    }

    /// The color made of `components`.
    pub open spec fn from_components_spec(components: (T, T, T)) -> Self {
        Oklrab { l: components.0, a: components.1, b: components.2 }
    }
}

impl<T> Oklrab<T> {
    /// Create an Oklrab color.
    pub fn new(l: T, a: T, b: T) -> (r: Self)
        ensures
            r == Self::from_components_spec((l, a, b)),
    {
        Oklrab { l, a, b }
    }

    /// Convert to a `(l, a, b)` tuple.
    pub fn into_components(self) -> (r: (T, T, T))
        ensures
            r == self.components_spec(),
    {
        (self.l, self.a, self.b)
    }

    /// Convert from a `(l, a, b)` tuple.
    pub fn from_components(components: (T, T, T)) -> (r: Self)
        ensures
            r == Self::from_components_spec(components),
    {
        let (l, a, b) = components;
        Oklrab { l, a, b }
    }
}

impl<T> Oklrab<T> where T: Zero + One {
    /// Return the `l` value minimum.
    pub fn min_l() -> (r: T)
        ensures
            r == T::zero_spec(),
    {
        T::zero()
    }

    /// Return the `l` value maximum.
    pub fn max_l() -> (r: T)
        ensures
            r == T::one_spec(),
    {
        T::one()
    }
}

impl<T, A> Alpha<Oklrab<T>, A> {
    /// Create an Oklrab color with transparency.
    pub fn new(l: T, a: T, b: T, alpha: A) -> (r: Self)
        ensures
            r.color == Oklrab::<T>::from_components_spec((l, a, b)),
            r.alpha == alpha,
    {
        Alpha { color: Oklrab::<T>::new(l, a, b), alpha }
    }

    /// Convert to a `(l, a, b, alpha)` tuple.
    pub fn into_components(self) -> (r: (T, T, T, A))
        ensures
            r == (self.color.l, self.color.a, self.color.b, self.alpha),
    {
        (self.color.l, self.color.a, self.color.b, self.alpha)
    }

    /// Convert from a `(l, a, b, alpha)` tuple.
    pub fn from_components(components: (T, T, T, A)) -> (r: Self)
        ensures
            r.color == Oklrab::<T>::from_components_spec(
                (components.0, components.1, components.2),
            ),
            r.alpha == components.3,
    {
        let (l, a, b, alpha) = components;
        Alpha { color: Oklrab { l, a, b }, alpha }
    }
}

impl<T> Add<Self> for Oklrab<T> where T: Add<Output = T> {
    type Output = Self;

    /// Add each component of `other` to the matching component.
    fn add(self, other: Self) -> (r: Self) {
        Oklrab {
            l: self.l + other.l,
            a: self.a + other.a,
            b: self.b + other.b,
        }
    }
}

impl<T> AddSpecImpl<Self> for Oklrab<T> where T: Add<Output = T> {
    open spec fn obeys_add_spec() -> bool {
        T::obeys_add_spec()
    }

    open spec fn add_req(self, rhs: Self) -> bool {
        self.l.add_req(rhs.l)
        && self.a.add_req(rhs.a)
        && self.b.add_req(rhs.b)
    }

    open spec fn add_spec(self, rhs: Self) -> Self {
        Oklrab {
            l: self.l.add_spec(rhs.l),
            a: self.a.add_spec(rhs.a),
            b: self.b.add_spec(rhs.b),
        }
    }
}

impl<T> Add<T> for Oklrab<T> where T: Add<Output = T> + Copy {
    type Output = Self;

    /// Add `c` to each component.
    fn add(self, c: T) -> (r: Self) {
        Oklrab {
            l: self.l + c,
            a: self.a + c,
            b: self.b + c,
        }
    }
}

impl<T> AddSpecImpl<T> for Oklrab<T> where T: Add<Output = T> + Copy {
    open spec fn obeys_add_spec() -> bool {
        T::obeys_add_spec()
    }

    open spec fn add_req(self, rhs: T) -> bool {
        self.l.add_req(rhs)
        && self.a.add_req(rhs)
        && self.b.add_req(rhs)
    }

    open spec fn add_spec(self, rhs: T) -> Self {
        Oklrab {
            l: self.l.add_spec(rhs),
            a: self.a.add_spec(rhs),
            b: self.b.add_spec(rhs),
        }
    }
}

impl<T> Sub<Self> for Oklrab<T> where T: Sub<Output = T> {
    type Output = Self;

    /// Subtract each component of `other` from the matching component.
    fn sub(self, other: Self) -> (r: Self) {
        Oklrab {
            l: self.l - other.l,
            a: self.a - other.a,
            b: self.b - other.b,
        }
    }
}

impl<T> SubSpecImpl<Self> for Oklrab<T> where T: Sub<Output = T> {
    open spec fn obeys_sub_spec() -> bool {
        T::obeys_sub_spec()
    }

    open spec fn sub_req(self, rhs: Self) -> bool {
        self.l.sub_req(rhs.l)
        && self.a.sub_req(rhs.a)
        && self.b.sub_req(rhs.b)
    }

    open spec fn sub_spec(self, rhs: Self) -> Self {
        Oklrab {
            l: self.l.sub_spec(rhs.l),
            a: self.a.sub_spec(rhs.a),
            b: self.b.sub_spec(rhs.b),
        }
    }
}

impl<T> Sub<T> for Oklrab<T> where T: Sub<Output = T> + Copy {
    type Output = Self;

    /// Subtract `c` from each component.
    fn sub(self, c: T) -> (r: Self) {
        Oklrab {
            l: self.l - c,
            a: self.a - c,
            b: self.b - c,
        }
    }
}

impl<T> SubSpecImpl<T> for Oklrab<T> where T: Sub<Output = T> + Copy {
    open spec fn obeys_sub_spec() -> bool {
        T::obeys_sub_spec()
    }

    open spec fn sub_req(self, rhs: T) -> bool {
        self.l.sub_req(rhs)
        && self.a.sub_req(rhs)
        && self.b.sub_req(rhs)
    }

    open spec fn sub_spec(self, rhs: T) -> Self {
        Oklrab {
            l: self.l.sub_spec(rhs),
            a: self.a.sub_spec(rhs),
            b: self.b.sub_spec(rhs),
        }
    }
}

impl<T> Mul<Self> for Oklrab<T> where T: Mul<Output = T> {
    type Output = Self;

    /// Multiply each component by the matching component of `other`.
    fn mul(self, other: Self) -> (r: Self) {
        Oklrab {
            l: self.l * other.l,
            a: self.a * other.a,
            b: self.b * other.b,
        }
    }
}

impl<T> MulSpecImpl<Self> for Oklrab<T> where T: Mul<Output = T> {
    open spec fn obeys_mul_spec() -> bool {
        T::obeys_mul_spec()
    }

    open spec fn mul_req(self, rhs: Self) -> bool {
        self.l.mul_req(rhs.l)
        && self.a.mul_req(rhs.a)
        && self.b.mul_req(rhs.b)
    }

    open spec fn mul_spec(self, rhs: Self) -> Self {
        Oklrab {
            l: self.l.mul_spec(rhs.l),
            a: self.a.mul_spec(rhs.a),
            b: self.b.mul_spec(rhs.b),
        }
    }
}

impl<T> Mul<T> for Oklrab<T> where T: Mul<Output = T> + Copy {
    type Output = Self;

    /// Multiply each component by `c`.
    fn mul(self, c: T) -> (r: Self) {
        Oklrab {
            l: self.l * c,
            a: self.a * c,
            b: self.b * c,
        }
    }
}

impl<T> MulSpecImpl<T> for Oklrab<T> where T: Mul<Output = T> + Copy {
    open spec fn obeys_mul_spec() -> bool {
        T::obeys_mul_spec()
    }

    open spec fn mul_req(self, rhs: T) -> bool {
        self.l.mul_req(rhs)
        && self.a.mul_req(rhs)
        && self.b.mul_req(rhs)
    }

    open spec fn mul_spec(self, rhs: T) -> Self {
        Oklrab {
            l: self.l.mul_spec(rhs),
            a: self.a.mul_spec(rhs),
            b: self.b.mul_spec(rhs),
        }
    }
}

impl<T> Div<Self> for Oklrab<T> where T: Div<Output = T> {
    type Output = Self;

    /// Divide each component by the matching component of `other`.
    fn div(self, other: Self) -> (r: Self) {
        Oklrab {
            l: self.l / other.l,
            a: self.a / other.a,
            b: self.b / other.b,
        }
    }
}

impl<T> DivSpecImpl<Self> for Oklrab<T> where T: Div<Output = T> {
    open spec fn obeys_div_spec() -> bool {
        T::obeys_div_spec()
    }

    open spec fn div_req(self, rhs: Self) -> bool {
        self.l.div_req(rhs.l)
        && self.a.div_req(rhs.a)
        && self.b.div_req(rhs.b)
    }

    open spec fn div_spec(self, rhs: Self) -> Self {
        Oklrab {
            l: self.l.div_spec(rhs.l),
            a: self.a.div_spec(rhs.a),
            b: self.b.div_spec(rhs.b),
        }
    }
}

impl<T> Div<T> for Oklrab<T> where T: Div<Output = T> + Copy {
    type Output = Self;

    /// Divide each component by `c`.
    fn div(self, c: T) -> (r: Self) {
        Oklrab {
            l: self.l / c,
            a: self.a / c,
            b: self.b / c,
        }
    }
}

impl<T> DivSpecImpl<T> for Oklrab<T> where T: Div<Output = T> + Copy {
    open spec fn obeys_div_spec() -> bool {
        T::obeys_div_spec()
    }

    open spec fn div_req(self, rhs: T) -> bool {
        self.l.div_req(rhs)
        && self.a.div_req(rhs)
        && self.b.div_req(rhs)
    }

    open spec fn div_spec(self, rhs: T) -> Self {
        Oklrab {
            l: self.l.div_spec(rhs),
            a: self.a.div_spec(rhs),
            b: self.b.div_spec(rhs),
        }
    }
}

impl<T> Oklrab<T> where T: Zero + One + PartialOrd + Copy {
    /// The components that have limits are within them.
    pub open spec fn is_valid_spec(self) -> bool {
        within_spec(self.l, T::zero_spec(), T::one_spec())
    }

    /// The color with the components that have limits clamped to them.
    pub open spec fn clamp_spec(self) -> Self {
        Oklrab {
            l: clamp_spec(self.l, T::zero_spec(), T::one_spec()),
            a: self.a,
            b: self.b,
        }
    }
}

impl<T> Limited for Oklrab<T> where T: Zero + One + PartialOrd + Copy {
    open spec fn limited_req(&self) -> bool {
        true
    }

    open spec fn obeys_limited_spec() -> bool {
        T::obeys_partial_cmp_spec()
    }

    open spec fn valid_spec(&self) -> bool {
        self.is_valid_spec()
    }

    open spec fn clamped_spec(&self) -> Self {
        self.clamp_spec()
    }

    fn is_valid(&self) -> (r: bool)
        ensures
            T::obeys_partial_cmp_spec() ==> r == self.is_valid_spec(),
    {
        self.l >= Self::min_l() && self.l <= Self::max_l()
    }

    fn clamp(&self) -> (r: Self)
        ensures
            T::obeys_partial_cmp_spec() ==> r == self.clamp_spec(),
    {
        let mut c = *self;
        c.clamp_self();
        c
    }

    fn clamp_self(&mut self)
        ensures
            T::obeys_partial_cmp_spec() ==> *final(self) == old(self).clamp_spec(),
    {
        self.l = clamp(self.l, Self::min_l(), Self::max_l());
    }
}

/// Clamping gives a color whose components are within their limits, and a
/// color that is already within them is left as it is.
pub proof fn law_oklrab_clamp_is_valid<T: Zero + One + Ord + Copy>(color: Oklrab<T>)
    requires
        vstd::laws_cmp::obeys_cmp::<T>(),
        T::zero_spec().is_le(&T::one_spec()),
    ensures
        color.clamp_spec().is_valid_spec(),
        color.is_valid_spec() ==> color.clamp_spec() == color,
{
    law_clamp_within(color.l, T::zero_spec(), T::one_spec());
}

impl<T> FromColorUnclamped<Oklrab<T>> for Oklrab<T> {
    open spec fn from_color_unclamped_req(val: Oklrab<T>) -> bool {
        true
    }

    /// The same color.
    fn from_color_unclamped(color: Oklrab<T>) -> (r: Self)
        ensures
            r == color,
    {
        color
    }
}

impl<T> Default for Oklrab<T> where T: Zero {
    /// Black: all components zero.
    fn default() -> (r: Self)
        ensures
            r == Self::from_components_spec((T::zero_spec(), T::zero_spec(), T::zero_spec())),
    {
        Self::new(T::zero(), T::zero(), T::zero())
    }
}

/// `from_components` and `into_components` are inverse to each other.
pub proof fn law_oklrab_components_round_trip<T>(color: Oklrab<T>, components: (T, T, T))
    ensures
        Oklrab::<T>::from_components_spec(color.components_spec()) == color,
        Oklrab::<T>::from_components_spec(components).components_spec() == components,
{
}

impl<T> PartialEq for Oklrab<T> where T: PartialEq {
    /// Compare the components one by one.
    fn eq(&self, other: &Self) -> (r: bool) {
        self.l == other.l && self.a == other.a && self.b == other.b
    }
}

impl<T> PartialEqSpecImpl for Oklrab<T> where T: PartialEq {
    open spec fn obeys_eq_spec() -> bool {
        T::obeys_eq_spec()
    }

    open spec fn eq_spec(&self, other: &Self) -> bool {
        self.l.eq_spec(&other.l)
        && self.a.eq_spec(&other.a)
        && self.b.eq_spec(&other.b)
    }
}

/// The arithmetic operators (Add, Sub, Mul, Div) act on each component on its own:
/// combining two colors combines each component of `a` with the matching
/// component of `b`, and combining a color with a number `c` combines each
/// component with `c`, by the component type's own operator.
pub proof fn law_oklrab_arithmetic_is_componentwise<T>(
    a: Oklrab<T>,
    b: Oklrab<T>,
    c: T,
    add_color: Oklrab<T>,
    add_scalar: Oklrab<T>,
    sub_color: Oklrab<T>,
    sub_scalar: Oklrab<T>,
    mul_color: Oklrab<T>,
    mul_scalar: Oklrab<T>,
    div_color: Oklrab<T>,
    div_scalar: Oklrab<T>,
)
    where
        T: Add<Output = T> + Div<Output = T> + Mul<Output = T> + Sub<Output = T> + Copy,
    requires
        T::obeys_add_spec(),
        T::obeys_sub_spec(),
        T::obeys_mul_spec(),
        T::obeys_div_spec(),
        call_ensures(<Oklrab<T> as Add<Oklrab<T>>>::add, (a, b), add_color),
        call_ensures(<Oklrab<T> as Add<T>>::add, (a, c), add_scalar),
        call_ensures(<Oklrab<T> as Sub<Oklrab<T>>>::sub, (a, b), sub_color),
        call_ensures(<Oklrab<T> as Sub<T>>::sub, (a, c), sub_scalar),
        call_ensures(<Oklrab<T> as Mul<Oklrab<T>>>::mul, (a, b), mul_color),
        call_ensures(<Oklrab<T> as Mul<T>>::mul, (a, c), mul_scalar),
        call_ensures(<Oklrab<T> as Div<Oklrab<T>>>::div, (a, b), div_color),
        call_ensures(<Oklrab<T> as Div<T>>::div, (a, c), div_scalar),
    ensures
        add_color.l == a.l.add_spec(b.l),
        add_color.a == a.a.add_spec(b.a),
        add_color.b == a.b.add_spec(b.b),
        add_scalar.l == a.l.add_spec(c),
        add_scalar.a == a.a.add_spec(c),
        add_scalar.b == a.b.add_spec(c),
        sub_color.l == a.l.sub_spec(b.l),
        sub_color.a == a.a.sub_spec(b.a),
        sub_color.b == a.b.sub_spec(b.b),
        sub_scalar.l == a.l.sub_spec(c),
        sub_scalar.a == a.a.sub_spec(c),
        sub_scalar.b == a.b.sub_spec(c),
        mul_color.l == a.l.mul_spec(b.l),
        mul_color.a == a.a.mul_spec(b.a),
        mul_color.b == a.b.mul_spec(b.b),
        mul_scalar.l == a.l.mul_spec(c),
        mul_scalar.a == a.a.mul_spec(c),
        mul_scalar.b == a.b.mul_spec(c),
        div_color.l == a.l.div_spec(b.l),
        div_color.a == a.a.div_spec(b.a),
        div_color.b == a.b.div_spec(b.b),
        div_scalar.l == a.l.div_spec(c),
        div_scalar.a == a.a.div_spec(c),
        div_scalar.b == a.b.div_spec(c),
{
}

/// With `i32` components, two colors compare equal with `==` exactly when
/// all their components are equal.
pub proof fn law_oklrab_eq_i32(a: Oklrab<i32>, b: Oklrab<i32>, r: bool)
    requires
        call_ensures(<Oklrab<i32> as PartialEq<Oklrab<i32>>>::eq, (&a, &b), r),
    ensures
        r <==> (a.l == b.l && a.a == b.a && a.b == b.b),
{
}

/// With `i64` components, two colors compare equal with `==` exactly when
/// all their components are equal.
pub proof fn law_oklrab_eq_i64(a: Oklrab<i64>, b: Oklrab<i64>, r: bool)
    requires
        call_ensures(<Oklrab<i64> as PartialEq<Oklrab<i64>>>::eq, (&a, &b), r),
    ensures
        r <==> (a.l == b.l && a.a == b.a && a.b == b.b),
{
}

/// What clamping does to each component: a component with limits is raised
/// to its lower limit when below it, lowered to its upper limit when above
/// it, and kept when within them; the other components are kept. A color is
/// valid exactly when each component with limits is within them.
pub proof fn law_oklrab_clamp_each_component<T: Zero + One + Ord + Copy>(c: Oklrab<T>)
    requires
        vstd::laws_cmp::obeys_cmp::<T>(),
        T::zero_spec().is_le(&T::one_spec()),
    ensures
        c.clamped_spec().l.is_ge(&T::zero_spec()),
        c.l.is_lt(&T::zero_spec()) ==> c.clamped_spec().l == T::zero_spec(),
        c.clamped_spec().l.is_le(&T::one_spec()),
        c.l.is_gt(&T::one_spec()) ==> c.clamped_spec().l == T::one_spec(),
        c.l.is_ge(&T::zero_spec()) && c.l.is_le(&T::one_spec()) ==> c.clamped_spec().l == c.l,
        c.clamped_spec().a == c.a,
        c.clamped_spec().b == c.b,
        c.valid_spec() <==> (c.l.is_ge(&T::zero_spec()) && c.l.is_le(&T::one_spec())),
{
    reveal(vstd::laws_cmp::obeys_partial_cmp_spec_properties);
    reveal(vstd::laws_cmp::obeys_cmp_partial_ord);
    reveal(vstd::laws_cmp::obeys_cmp_ord);
    crate::law_clamp_within(c.l, T::zero_spec(), T::one_spec());
}

/// Building a color from a tuple of components puts each component in its
/// own place, and `into_components` gives the components back in the same
/// order.
pub proof fn law_oklrab_components_in_place<T>(
    components: (T, T, T),
    built: Oklrab<T>,
    color: Oklrab<T>,
    parts: (T, T, T),
)
    requires
        call_ensures(Oklrab::<T>::from_components, (components,), built),
        call_ensures(Oklrab::<T>::into_components, (color,), parts),
    ensures
        built.l == components.0,
        built.a == components.1,
        built.b == components.2,
        parts == (color.l, color.a, color.b),
{
}

} // verus!
