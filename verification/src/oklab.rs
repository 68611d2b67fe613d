//! The Oklab color space.

use crate::alpha::Alpha;
use core::ops::{Add, Sub, Mul, Div};
use crate::convert::FromColorUnclamped;
use vstd::pervasive::cloned;
use vstd::std_specs::convert::FromSpecImpl;
use crate::num::Zero;
use vstd::std_specs::cmp::{PartialEqSpec, PartialEqSpecImpl};
use vstd::prelude::*;
use vstd::std_specs::ops::{
    AddSpec, AddSpecImpl, SubSpec, SubSpecImpl, MulSpec, MulSpecImpl, DivSpec, DivSpecImpl,
};

verus! {

/// The Oklab color space.
///
/// Oklab is a perceptually uniform color space, designed by Björn Ottosson
/// to estimate perceived lightness, chroma and hue with good accuracy.
pub struct Oklab<T> {
    /// L is the lightness of the color. 0 gives absolute black and 1 gives the
    /// brightest white.
    pub l: T,

    /// a goes from red to green.
    pub a: T,

    /// b goes from yellow to blue.
    pub b: T,
}

impl<T> Copy for Oklab<T> where T: Copy {

}

impl<T> Clone for Oklab<T> where T: Clone {
    fn clone(&self) -> (r: Oklab<T>)
        ensures
            cloned(self.l, r.l),
            cloned(self.a, r.a),
            cloned(self.b, r.b),
    {
        Oklab { l: self.l.clone(), a: self.a.clone(), b: self.b.clone() }
    }
}

/// Oklab with an alpha component.
pub type Oklaba<T> = Alpha<Oklab<T>, T>;

impl<T> Oklab<T> {
    /// The components of `self`, in the order that `into_components` returns them.
    pub open spec fn components_spec(self) -> (T, T, T) {
        (self.l, self.a, self.b)
    }

    /// The color made of `components`.
    pub open spec fn from_components_spec(components: (T, T, T)) -> Self {
        Oklab { l: components.0, a: components.1, b: components.2 }
    }
}

impl<T> Oklab<T> {
    /// Create an Oklab color.
    pub fn new(l: T, a: T, b: T) -> (r: Self)
        ensures
            r == Self::from_components_spec((l, a, b)),
    {
        Oklab { l, a, b }
    }

    /// Convert to a `(l, a, b)` tuple.
    pub fn into_components(self) -> (r: (T, T, T))
        ensures
            r == self.components_spec(),
    {
        (self.l, self.a, self.b)
    }

    /// Convert from a `(l, a, b)` tuple.
    pub fn from_components(components: (T, T, T)) -> (r: Self)
        ensures
            r == Self::from_components_spec(components),
    {
        let (l, a, b) = components;
        Oklab { l, a, b }
    }
}

impl<T, A> Alpha<Oklab<T>, A> {
    /// Create an Oklab color with transparency.
    pub fn new(l: T, a: T, b: T, alpha: A) -> (r: Self)
        ensures
            r.color == Oklab::<T>::from_components_spec((l, a, b)),
            r.alpha == alpha,
    {
        Alpha { color: Oklab::<T>::new(l, a, b), alpha }
    }

    /// Convert to a `(l, a, b, alpha)` tuple.
    pub fn into_components(self) -> (r: (T, T, T, A))
        ensures
            r == (self.color.l, self.color.a, self.color.b, self.alpha),
    {
        (self.color.l, self.color.a, self.color.b, self.alpha)
    }

    /// Convert from a `(l, a, b, alpha)` tuple.
    pub fn from_components(components: (T, T, T, A)) -> (r: Self)
        ensures
            r.color == Oklab::<T>::from_components_spec((components.0, components.1, components.2)),
            r.alpha == components.3,
    {
        let (l, a, b, alpha) = components;
        Alpha { color: Oklab { l, a, b }, alpha }
    }
}

impl<T> Add<Self> for Oklab<T> where T: Add<Output = T> {
    type Output = Self;

    /// Add each component of `other` to the matching component.
    fn add(self, other: Self) -> (r: Self) {
        Oklab {
            l: self.l + other.l,
            a: self.a + other.a,
            b: self.b + other.b,
        }
    }
}

impl<T> AddSpecImpl<Self> for Oklab<T> where T: Add<Output = T> {
    open spec fn obeys_add_spec() -> bool {
        T::obeys_add_spec()
    }

    open spec fn add_req(self, rhs: Self) -> bool {
        self.l.add_req(rhs.l)
        && self.a.add_req(rhs.a)
        && self.b.add_req(rhs.b)
    }

    open spec fn add_spec(self, rhs: Self) -> Self {
        Oklab {
            l: self.l.add_spec(rhs.l),
            a: self.a.add_spec(rhs.a),
            b: self.b.add_spec(rhs.b),
        }
    }
}

impl<T> Add<T> for Oklab<T> where T: Add<Output = T> + Copy {
    type Output = Self;

    /// Add `c` to each component.
    fn add(self, c: T) -> (r: Self) {
        Oklab {
            l: self.l + c,
            a: self.a + c,
            b: self.b + c,
        }
    }
}

impl<T> AddSpecImpl<T> for Oklab<T> where T: Add<Output = T> + Copy {
    open spec fn obeys_add_spec() -> bool {
        T::obeys_add_spec()
    }

    open spec fn add_req(self, rhs: T) -> bool {
        self.l.add_req(rhs)
        && self.a.add_req(rhs)
        && self.b.add_req(rhs)
    }

    open spec fn add_spec(self, rhs: T) -> Self {
        Oklab {
            l: self.l.add_spec(rhs),
            a: self.a.add_spec(rhs),
            b: self.b.add_spec(rhs),
        }
    }
}

impl<T> Sub<Self> for Oklab<T> where T: Sub<Output = T> {
    type Output = Self;

    /// Subtract each component of `other` from the matching component.
    fn sub(self, other: Self) -> (r: Self) {
        Oklab {
            l: self.l - other.l,
            a: self.a - other.a,
            b: self.b - other.b,
        }
    }
}

impl<T> SubSpecImpl<Self> for Oklab<T> where T: Sub<Output = T> {
    open spec fn obeys_sub_spec() -> bool {
        T::obeys_sub_spec()
    }

    open spec fn sub_req(self, rhs: Self) -> bool {
        self.l.sub_req(rhs.l)
        && self.a.sub_req(rhs.a)
        && self.b.sub_req(rhs.b)
    }

    open spec fn sub_spec(self, rhs: Self) -> Self {
        Oklab {
            l: self.l.sub_spec(rhs.l),
            a: self.a.sub_spec(rhs.a),
            b: self.b.sub_spec(rhs.b),
        }
    }
}

impl<T> Sub<T> for Oklab<T> where T: Sub<Output = T> + Copy {
    type Output = Self;

    /// Subtract `c` from each component.
    fn sub(self, c: T) -> (r: Self) {
        Oklab {
            l: self.l - c,
            a: self.a - c,
            b: self.b - c,
        }
    }
}

impl<T> SubSpecImpl<T> for Oklab<T> where T: Sub<Output = T> + Copy {
    open spec fn obeys_sub_spec() -> bool {
        T::obeys_sub_spec()
    }

    open spec fn sub_req(self, rhs: T) -> bool {
        self.l.sub_req(rhs)
        && self.a.sub_req(rhs)
        && self.b.sub_req(rhs)
    }

    open spec fn sub_spec(self, rhs: T) -> Self {
        Oklab {
            l: self.l.sub_spec(rhs),
            a: self.a.sub_spec(rhs),
            b: self.b.sub_spec(rhs),
        }
    }
}

impl<T> Mul<Self> for Oklab<T> where T: Mul<Output = T> {
    type Output = Self;

    /// Multiply each component by the matching component of `other`.
    fn mul(self, other: Self) -> (r: Self) {
        Oklab {
            l: self.l * other.l,
            a: self.a * other.a,
            b: self.b * other.b,
        }
    }
}

impl<T> MulSpecImpl<Self> for Oklab<T> where T: Mul<Output = T> {
    open spec fn obeys_mul_spec() -> bool {
        T::obeys_mul_spec()
    }

    open spec fn mul_req(self, rhs: Self) -> bool {
        self.l.mul_req(rhs.l)
        && self.a.mul_req(rhs.a)
        && self.b.mul_req(rhs.b)
    }

    open spec fn mul_spec(self, rhs: Self) -> Self {
        Oklab {
            l: self.l.mul_spec(rhs.l),
            a: self.a.mul_spec(rhs.a),
            b: self.b.mul_spec(rhs.b),
        }
    }
}

impl<T> Mul<T> for Oklab<T> where T: Mul<Output = T> + Copy {
    type Output = Self;

    /// Multiply each component by `c`.
    fn mul(self, c: T) -> (r: Self) {
        Oklab {
            l: self.l * c,
            a: self.a * c,
            b: self.b * c,
        }
    }
}

impl<T> MulSpecImpl<T> for Oklab<T> where T: Mul<Output = T> + Copy {
    open spec fn obeys_mul_spec() -> bool {
        T::obeys_mul_spec()
    }

    open spec fn mul_req(self, rhs: T) -> bool {
        self.l.mul_req(rhs)
        && self.a.mul_req(rhs)
        && self.b.mul_req(rhs)
    }

    open spec fn mul_spec(self, rhs: T) -> Self {
        Oklab {
            l: self.l.mul_spec(rhs),
            a: self.a.mul_spec(rhs),
            b: self.b.mul_spec(rhs),
        }
    }
}

impl<T> Div<Self> for Oklab<T> where T: Div<Output = T> {
    type Output = Self;

    /// Divide each component by the matching component of `other`.
    fn div(self, other: Self) -> (r: Self) {
        Oklab {
            l: self.l / other.l,
            a: self.a / other.a,
            b: self.b / other.b,
        }
    }
}

impl<T> DivSpecImpl<Self> for Oklab<T> where T: Div<Output = T> {
    open spec fn obeys_div_spec() -> bool {
        T::obeys_div_spec()
    }

    open spec fn div_req(self, rhs: Self) -> bool {
        self.l.div_req(rhs.l)
        && self.a.div_req(rhs.a)
        && self.b.div_req(rhs.b)
    }

    open spec fn div_spec(self, rhs: Self) -> Self {
        Oklab {
            l: self.l.div_spec(rhs.l),
            a: self.a.div_spec(rhs.a),
            b: self.b.div_spec(rhs.b),
        }
    }
}

impl<T> Div<T> for Oklab<T> where T: Div<Output = T> + Copy {
    type Output = Self;

    /// Divide each component by `c`.
    fn div(self, c: T) -> (r: Self) {
        Oklab {
            l: self.l / c,
            a: self.a / c,
            b: self.b / c,
        }
    }
}

impl<T> DivSpecImpl<T> for Oklab<T> where T: Div<Output = T> + Copy {
    open spec fn obeys_div_spec() -> bool {
        T::obeys_div_spec()
    }

    open spec fn div_req(self, rhs: T) -> bool {
        self.l.div_req(rhs)
        && self.a.div_req(rhs)
        && self.b.div_req(rhs)
    }

    open spec fn div_spec(self, rhs: T) -> Self {
        Oklab {
            l: self.l.div_spec(rhs),
            a: self.a.div_spec(rhs),
            b: self.b.div_spec(rhs),
        }
    }
}

impl<T> FromColorUnclamped<Oklab<T>> for Oklab<T> {
    open spec fn from_color_unclamped_req(val: Oklab<T>) -> bool {
        true
    }

    /// The same color.
    fn from_color_unclamped(color: Oklab<T>) -> (r: Self)
        ensures
            r == color,
    {
        color
    }
}

impl<T> From<Oklab<T>> for (T, T, T) {
    /// The components of `color`.
    fn from(color: Oklab<T>) -> (r: (T, T, T)) {
        color.into_components()
    }
}

impl<T> FromSpecImpl<Oklab<T>> for (T, T, T) {
    open spec fn obeys_from_spec() -> bool {
        true
    }

    open spec fn from_spec(color: Oklab<T>) -> (T, T, T) {
        (color.l, color.a, color.b)
    }
}

impl<T, A> From<Alpha<Oklab<T>, A>> for (T, T, T, A) {
    /// The components and the alpha of `color`.
    fn from(color: Alpha<Oklab<T>, A>) -> (r: (T, T, T, A)) {
        color.into_components()
    }
}

impl<T, A> FromSpecImpl<Alpha<Oklab<T>, A>> for (T, T, T, A) {
    open spec fn obeys_from_spec() -> bool {
        true
    }

    open spec fn from_spec(color: Alpha<Oklab<T>, A>) -> (T, T, T, A) {
        (color.color.l, color.color.a, color.color.b, color.alpha)
    }
}

impl<T> From<(T, T, T)> for Oklab<T> {
    /// The color made of `components`.
    fn from(components: (T, T, T)) -> (r: Self) {
        Self::from_components(components)
    }
}

impl<T> FromSpecImpl<(T, T, T)> for Oklab<T> {
    open spec fn obeys_from_spec() -> bool {
        true
    }

    open spec fn from_spec(components: (T, T, T)) -> Self {
        Self::from_components_spec(components)
    }
}

impl<T, A> From<(T, T, T, A)> for Alpha<Oklab<T>, A> {
    /// The color made of `components`, with the last one as alpha.
    fn from(components: (T, T, T, A)) -> (r: Self) {
        Self::from_components(components)
    }
}

impl<T, A> FromSpecImpl<(T, T, T, A)> for Alpha<Oklab<T>, A> {
    open spec fn obeys_from_spec() -> bool {
        true
    }

    open spec fn from_spec(components: (T, T, T, A)) -> Self {
        Alpha {
            color: Oklab::<T>::from_components_spec((components.0, components.1, components.2)),
            alpha: components.3,
        }
    }
}

impl<T> Default for Oklab<T> where T: Zero {
    /// Black: all components zero.
    fn default() -> (r: Self)
        ensures
            r == Self::from_components_spec((T::zero_spec(), T::zero_spec(), T::zero_spec())),
    {
        Self::new(T::zero(), T::zero(), T::zero())
    }
}

/// `from_components` and `into_components` are inverse to each other.
pub proof fn law_oklab_components_round_trip<T>(color: Oklab<T>, components: (T, T, T))
    ensures
        Oklab::<T>::from_components_spec(color.components_spec()) == color,
        Oklab::<T>::from_components_spec(components).components_spec() == components,
{
}

impl<T> PartialEq for Oklab<T> where T: PartialEq {
    /// Compare the components one by one.
    fn eq(&self, other: &Self) -> (r: bool) {
        self.l == other.l && self.a == other.a && self.b == other.b
    }
}

impl<T> PartialEqSpecImpl for Oklab<T> where T: PartialEq {
    open spec fn obeys_eq_spec() -> bool {
        T::obeys_eq_spec()
    }

    open spec fn eq_spec(&self, other: &Self) -> bool {
        self.l.eq_spec(&other.l)
        && self.a.eq_spec(&other.a)
        && self.b.eq_spec(&other.b)
    }
}

/// The arithmetic operators (Add, Sub, Mul, Div) act on each component on its own:
/// combining two colors combines each component of `a` with the matching
/// component of `b`, and combining a color with a number `c` combines each
/// component with `c`, by the component type's own operator.
pub proof fn law_oklab_arithmetic_is_componentwise<T>(
    a: Oklab<T>,
    b: Oklab<T>,
    c: T,
    add_color: Oklab<T>,
    add_scalar: Oklab<T>,
    sub_color: Oklab<T>,
    sub_scalar: Oklab<T>,
    mul_color: Oklab<T>,
    mul_scalar: Oklab<T>,
    div_color: Oklab<T>,
    div_scalar: Oklab<T>,
)
    where
        T: Add<Output = T> + Div<Output = T> + Mul<Output = T> + Sub<Output = T> + Copy,
    requires
        T::obeys_add_spec(),
        T::obeys_sub_spec(),
        T::obeys_mul_spec(),
        T::obeys_div_spec(),
        call_ensures(<Oklab<T> as Add<Oklab<T>>>::add, (a, b), add_color),
        call_ensures(<Oklab<T> as Add<T>>::add, (a, c), add_scalar),
        call_ensures(<Oklab<T> as Sub<Oklab<T>>>::sub, (a, b), sub_color),
        call_ensures(<Oklab<T> as Sub<T>>::sub, (a, c), sub_scalar),
        call_ensures(<Oklab<T> as Mul<Oklab<T>>>::mul, (a, b), mul_color),
        call_ensures(<Oklab<T> as Mul<T>>::mul, (a, c), mul_scalar),
        call_ensures(<Oklab<T> as Div<Oklab<T>>>::div, (a, b), div_color),
        call_ensures(<Oklab<T> as Div<T>>::div, (a, c), div_scalar),
    ensures
        add_color.l == a.l.add_spec(b.l),
        add_color.a == a.a.add_spec(b.a),
        add_color.b == a.b.add_spec(b.b),
        add_scalar.l == a.l.add_spec(c),
        add_scalar.a == a.a.add_spec(c),
        add_scalar.b == a.b.add_spec(c),
        sub_color.l == a.l.sub_spec(b.l),
        sub_color.a == a.a.sub_spec(b.a),
        sub_color.b == a.b.sub_spec(b.b),
        sub_scalar.l == a.l.sub_spec(c),
        sub_scalar.a == a.a.sub_spec(c),
        sub_scalar.b == a.b.sub_spec(c),
        mul_color.l == a.l.mul_spec(b.l),
        mul_color.a == a.a.mul_spec(b.a),
        mul_color.b == a.b.mul_spec(b.b),
        mul_scalar.l == a.l.mul_spec(c),
        mul_scalar.a == a.a.mul_spec(c),
        mul_scalar.b == a.b.mul_spec(c),
        div_color.l == a.l.div_spec(b.l),
        div_color.a == a.a.div_spec(b.a),
        div_color.b == a.b.div_spec(b.b),
        div_scalar.l == a.l.div_spec(c),
        div_scalar.a == a.a.div_spec(c),
        div_scalar.b == a.b.div_spec(c),
{
}

/// With `i32` components, two colors compare equal with `==` exactly when
/// all their components are equal.
pub proof fn law_oklab_eq_i32(a: Oklab<i32>, b: Oklab<i32>, r: bool)
    requires
        call_ensures(<Oklab<i32> as PartialEq<Oklab<i32>>>::eq, (&a, &b), r),
    ensures
        r <==> (a.l == b.l && a.a == b.a && a.b == b.b),
{
}

/// With `i64` components, two colors compare equal with `==` exactly when
/// all their components are equal.
pub proof fn law_oklab_eq_i64(a: Oklab<i64>, b: Oklab<i64>, r: bool)
    requires
        call_ensures(<Oklab<i64> as PartialEq<Oklab<i64>>>::eq, (&a, &b), r),
    ensures
        r <==> (a.l == b.l && a.a == b.a && a.b == b.b),
{
}

/// Building a color from a tuple of components puts each component in its
/// own place, and `into_components` gives the components back in the same
/// order.
pub proof fn law_oklab_components_in_place<T>(
    components: (T, T, T),
    built: Oklab<T>,
    color: Oklab<T>,
    parts: (T, T, T),
)
    requires
        call_ensures(Oklab::<T>::from_components, (components,), built),
        call_ensures(Oklab::<T>::into_components, (color,), parts),
    ensures
        built.l == components.0,
        built.a == components.1,
        built.b == components.2,
        parts == (color.l, color.a, color.b),
{
}

} // verus!
