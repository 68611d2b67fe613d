//! Luminance.

use core::marker::PhantomData;
use crate::alpha::Alpha;
use crate::component::{Component, FromComponent};
use core::ops::{Add, Sub, Mul, Div};
use crate::num::Zero;
use crate::{clamp, clamp_spec, within_spec, Limited};
use vstd::std_specs::cmp::{PartialOrdIs, PartialOrdSpec};
use crate::law_clamp_within;
use vstd::std_specs::cmp::{PartialEqSpec, PartialEqSpecImpl};
use crate::component::law_u8_u16_round_trip;
use vstd::pervasive::cloned;
use vstd::std_specs::convert::FromSpecImpl;
use vstd::prelude::*;
use vstd::std_specs::ops::{
    AddSpec, AddSpecImpl, SubSpec, SubSpecImpl, MulSpec, MulSpecImpl, DivSpec, DivSpecImpl,
};

verus! {

/// Luminance.
///
/// Luma is a purely gray scale color space, which is included more for
/// completeness than anything else, and represents how bright a color is
/// perceived to be. It's basically the `Y` component of CIE XYZ.
pub struct Luma<S, T> {
    /// The lightness of the color. 0.0 is black and 1.0 is white.
    pub luma: T,

    /// The kind of RGB standard. sRGB is the default.
    pub standard: PhantomData<S>,
}

impl<S, T> Copy for Luma<S, T> where T: Copy {

}

impl<S, T> Clone for Luma<S, T> where T: Clone {
    fn clone(&self) -> (r: Luma<S, T>)
        ensures
            cloned(self.luma, r.luma),
    {
        Luma { luma: self.luma.clone(), standard: PhantomData }
    }
}

/// Luma with an alpha component.
pub type Lumaa<S, T> = Alpha<Luma<S, T>, T>;

impl<S, T> Luma<S, T> {
    /// The components of `self`, in the order that `into_components` returns them.
    pub open spec fn components_spec(self) -> (T,) {
        (self.luma,)
    }

    /// The color made of `components`.
    pub open spec fn from_components_spec(components: (T,)) -> Self {
        Luma { luma: components.0, standard: PhantomData }
    }
}

impl<S, T> Luma<S, T> {
    /// Create a luminance color.
    pub fn new(luma: T) -> (r: Self)
        ensures
            r == Self::from_components_spec((luma,)),
    {
        Luma { luma, standard: PhantomData }
    }

    /// Convert to a `(luma)` tuple.
    pub fn into_components(self) -> (r: (T,))
        ensures
            r == self.components_spec(),
    {
        (self.luma,)
    }

    /// Convert from a `(luma)` tuple.
    pub fn from_components(components: (T,)) -> (r: Self)
        ensures
            r == Self::from_components_spec(components),
    {
        let (luma,) = components;
        Luma { luma, standard: PhantomData }
    }

    /// Convert the components into another component type.
    pub fn into_format<U>(self) -> (r: Luma<S, U>) where T: Component, U: FromComponent<T>
        ensures
            r == Luma::<S, U>::from_components_spec((U::from_component_spec(self.luma),)),
    {
        Luma { luma: U::from_component(self.luma), standard: PhantomData }
    }

    /// Convert the components from another component type.
    pub fn from_format<U>(color: Luma<S, U>) -> (r: Self) where U: Component, T: FromComponent<U>
        ensures
            r == Self::from_components_spec((T::from_component_spec(color.luma),)),
    {
        color.into_format()
    }
}

impl<S, T> Luma<S, T> where T: Component {
    /// Return the `luma` value minimum.
    pub fn min_luma() -> (r: T)
        ensures
            r == T::zero_spec(),
    {
        T::zero()
    }

    /// Return the `luma` value maximum.
    pub fn max_luma() -> (r: T)
        ensures
            r == T::max_intensity_spec(),
    {
        T::max_intensity()
    }
}

impl<S, T, A> Alpha<Luma<S, T>, A> {
    /// Create a luminance color with transparency.
    pub fn new(luma: T, alpha: A) -> (r: Self)
        ensures
            r.color == Luma::<S, T>::from_components_spec((luma,)),
            r.alpha == alpha,
    {
        Alpha { color: Luma::<S, T>::new(luma), alpha }
    }

    /// Convert to a `(luma, alpha)` tuple.
    pub fn into_components(self) -> (r: (T, A))
        ensures
            r == (self.color.luma, self.alpha),
    {
        (self.color.luma, self.alpha)
    }

    /// Convert from a `(luma, alpha)` tuple.
    pub fn from_components(components: (T, A)) -> (r: Self)
        ensures
            r.color == Luma::<S, T>::from_components_spec((components.0,)),
            r.alpha == components.1,
    {
        let (luma, alpha) = components;
        Alpha { color: Luma { luma, standard: PhantomData }, alpha }
    }

    /// Convert the components into other component types.
    pub fn into_format<U, B>(self) -> (r: Alpha<Luma<S, U>, B>) where
        T: Component,
        U: FromComponent<T>,
        A: Component,
        B: FromComponent<A>,

        ensures
            r.color == Luma::<S, U>::from_components_spec(
                (U::from_component_spec(self.color.luma),),
            ),
            r.alpha == B::from_component_spec(self.alpha),
    {
        Alpha { color: self.color.into_format(), alpha: B::from_component(self.alpha) }
    }

    /// Convert the components from other component types.
    pub fn from_format<U, B>(color: Alpha<Luma<S, U>, B>) -> (r: Self) where
        U: Component,
        T: FromComponent<U>,
        B: Component,
        A: FromComponent<B>,

        ensures
            r.color == Luma::<S, T>::from_components_spec(
                (T::from_component_spec(color.color.luma),),
            ),
            r.alpha == A::from_component_spec(color.alpha),
    {
        color.into_format()
    }
}

impl<S, T> Add<Self> for Luma<S, T> where T: Add<Output = T> {
    type Output = Self;

    /// Add each component of `other` to the matching component.
    fn add(self, other: Self) -> (r: Self) {
        Luma {
            luma: self.luma + other.luma,
            standard: PhantomData,
        }
    }
}

impl<S, T> AddSpecImpl<Self> for Luma<S, T> where T: Add<Output = T> {
    open spec fn obeys_add_spec() -> bool {
        T::obeys_add_spec()
    }

    open spec fn add_req(self, rhs: Self) -> bool {
        self.luma.add_req(rhs.luma)
    }

    open spec fn add_spec(self, rhs: Self) -> Self {
        Luma {
            luma: self.luma.add_spec(rhs.luma),
            standard: PhantomData,
        }
    }
}

impl<S, T> Add<T> for Luma<S, T> where T: Add<Output = T> {
    type Output = Self;

    /// Add `c` to each component.
    fn add(self, c: T) -> (r: Self) {
        Luma {
            luma: self.luma + c,
            standard: PhantomData,
        }
    }
}

impl<S, T> AddSpecImpl<T> for Luma<S, T> where T: Add<Output = T> {
    open spec fn obeys_add_spec() -> bool {
        T::obeys_add_spec()
    }

    open spec fn add_req(self, rhs: T) -> bool {
        self.luma.add_req(rhs)
    }

    open spec fn add_spec(self, rhs: T) -> Self {
        Luma {
            luma: self.luma.add_spec(rhs),
            standard: PhantomData,
        }
    }
}

impl<S, T> Sub<Self> for Luma<S, T> where T: Sub<Output = T> {
    type Output = Self;

    /// Subtract each component of `other` from the matching component.
    fn sub(self, other: Self) -> (r: Self) {
        Luma {
            luma: self.luma - other.luma,
            standard: PhantomData,
        }
    }
}

impl<S, T> SubSpecImpl<Self> for Luma<S, T> where T: Sub<Output = T> {
    open spec fn obeys_sub_spec() -> bool {
        T::obeys_sub_spec()
    }

    open spec fn sub_req(self, rhs: Self) -> bool {
        self.luma.sub_req(rhs.luma)
    }

    open spec fn sub_spec(self, rhs: Self) -> Self {
        Luma {
            luma: self.luma.sub_spec(rhs.luma),
            standard: PhantomData,
        }
    }
}

impl<S, T> Sub<T> for Luma<S, T> where T: Sub<Output = T> {
    type Output = Self;

    /// Subtract `c` from each component.
    fn sub(self, c: T) -> (r: Self) {
        Luma {
            luma: self.luma - c,
            standard: PhantomData,
        }
    }
}

impl<S, T> SubSpecImpl<T> for Luma<S, T> where T: Sub<Output = T> {
    open spec fn obeys_sub_spec() -> bool {
        T::obeys_sub_spec()
    }

    open spec fn sub_req(self, rhs: T) -> bool {
        self.luma.sub_req(rhs)
    }

    open spec fn sub_spec(self, rhs: T) -> Self {
        Luma {
            luma: self.luma.sub_spec(rhs),
            standard: PhantomData,
        }
    }
}

impl<S, T> Mul<Self> for Luma<S, T> where T: Mul<Output = T> {
    type Output = Self;

    /// Multiply each component by the matching component of `other`.
    fn mul(self, other: Self) -> (r: Self) {
        Luma {
            luma: self.luma * other.luma,
            standard: PhantomData,
        }
    }
}

impl<S, T> MulSpecImpl<Self> for Luma<S, T> where T: Mul<Output = T> {
    open spec fn obeys_mul_spec() -> bool {
        T::obeys_mul_spec()
    }

    open spec fn mul_req(self, rhs: Self) -> bool {
        self.luma.mul_req(rhs.luma)
    }

    open spec fn mul_spec(self, rhs: Self) -> Self {
        Luma {
            luma: self.luma.mul_spec(rhs.luma),
            standard: PhantomData,
        }
    }
}

impl<S, T> Mul<T> for Luma<S, T> where T: Mul<Output = T> {
    type Output = Self;

    /// Multiply each component by `c`.
    fn mul(self, c: T) -> (r: Self) {
        Luma {
            luma: self.luma * c,
            standard: PhantomData,
        }
    }
}

impl<S, T> MulSpecImpl<T> for Luma<S, T> where T: Mul<Output = T> {
    open spec fn obeys_mul_spec() -> bool {
        T::obeys_mul_spec()
    }

    open spec fn mul_req(self, rhs: T) -> bool {
        self.luma.mul_req(rhs)
    }

    open spec fn mul_spec(self, rhs: T) -> Self {
        Luma {
            luma: self.luma.mul_spec(rhs),
            standard: PhantomData,
        }
    }
}

impl<S, T> Div<Self> for Luma<S, T> where T: Div<Output = T> {
    type Output = Self;

    /// Divide each component by the matching component of `other`.
    fn div(self, other: Self) -> (r: Self) {
        Luma {
            luma: self.luma / other.luma,
            standard: PhantomData,
        }
    }
}

impl<S, T> DivSpecImpl<Self> for Luma<S, T> where T: Div<Output = T> {
    open spec fn obeys_div_spec() -> bool {
        T::obeys_div_spec()
    }

    open spec fn div_req(self, rhs: Self) -> bool {
        self.luma.div_req(rhs.luma)
    }

    open spec fn div_spec(self, rhs: Self) -> Self {
        Luma {
            luma: self.luma.div_spec(rhs.luma),
            standard: PhantomData,
        }
    }
}

impl<S, T> Div<T> for Luma<S, T> where T: Div<Output = T> {
    type Output = Self;

    /// Divide each component by `c`.
    fn div(self, c: T) -> (r: Self) {
        Luma {
            luma: self.luma / c,
            standard: PhantomData,
        }
    }
}

impl<S, T> DivSpecImpl<T> for Luma<S, T> where T: Div<Output = T> {
    open spec fn obeys_div_spec() -> bool {
        T::obeys_div_spec()
    }

    open spec fn div_req(self, rhs: T) -> bool {
        self.luma.div_req(rhs)
    }

    open spec fn div_spec(self, rhs: T) -> Self {
        Luma {
            luma: self.luma.div_spec(rhs),
            standard: PhantomData,
        }
    }
}

impl<S, T> Luma<S, T> where T: Component {
    /// The components that have limits are within them.
    pub open spec fn is_valid_spec(self) -> bool {
        within_spec(self.luma, T::zero_spec(), T::max_intensity_spec())
    }

    /// The color with the components that have limits clamped to them.
    pub open spec fn clamp_spec(self) -> Self {
        Luma {
            luma: clamp_spec(self.luma, T::zero_spec(), T::max_intensity_spec()),
            standard: self.standard,
        }
    }
}

impl<S, T> Limited for Luma<S, T> where T: Component {
    open spec fn limited_req(&self) -> bool {
        true
    }

    open spec fn obeys_limited_spec() -> bool {
        T::obeys_partial_cmp_spec()
    }

    open spec fn valid_spec(&self) -> bool {
        self.is_valid_spec()
    }

    open spec fn clamped_spec(&self) -> Self {
        self.clamp_spec()
    }

    fn is_valid(&self) -> (r: bool)
        ensures
            T::obeys_partial_cmp_spec() ==> r == self.is_valid_spec(),
    {
        self.luma >= Self::min_luma() && self.luma <= Self::max_luma()
    }

    fn clamp(&self) -> (r: Self)
        ensures
            T::obeys_partial_cmp_spec() ==> r == self.clamp_spec(),
    {
        let mut c = *self;
        c.clamp_self();
        c
    }

    fn clamp_self(&mut self)
        ensures
            T::obeys_partial_cmp_spec() ==> *final(self) == old(self).clamp_spec(),
    {
        self.luma = clamp(self.luma, Self::min_luma(), Self::max_luma());
    }
}

/// Clamping gives a color whose components are within their limits, and a
/// color that is already within them is left as it is.
pub proof fn law_luma_clamp_is_valid<S, T: Component + Ord>(color: Luma<S, T>)
    requires
        vstd::laws_cmp::obeys_cmp::<T>(),
        T::zero_spec().is_le(&T::max_intensity_spec()),
    ensures
        color.clamp_spec().is_valid_spec(),
        color.is_valid_spec() ==> color.clamp_spec() == color,
{
    law_clamp_within(color.luma, T::zero_spec(), T::max_intensity_spec());
}

/// A white point and a transfer function, which together are a luma
/// standard.
pub trait LumaStandard {
    /// The white point of the color space.
    type WhitePoint;

    /// The transfer function for the luminance component.
    type TransferFn;
}

impl<Wp, T> LumaStandard for (Wp, T) {
    type WhitePoint = Wp;

    type TransferFn = T;
}

impl<S, T> PartialEq for Luma<S, T> where T: PartialEq {
    /// Compare the components one by one.
    fn eq(&self, other: &Self) -> (r: bool) {
        self.luma == other.luma
    }
}

impl<S, T> PartialEqSpecImpl for Luma<S, T> where T: PartialEq {
    open spec fn obeys_eq_spec() -> bool {
        T::obeys_eq_spec()
    }

    open spec fn eq_spec(&self, other: &Self) -> bool {
        self.luma.eq_spec(&other.luma)
    }
}

impl<S, T> Eq for Luma<S, T> where T: Eq {

}

/// Converting an 8-bit luma color to 16 bits and back gives the same color.
pub proof fn law_luma_format_round_trip<S>(color: Luma<S, u8>)
    ensures
        Luma::<S, u8>::from_components_spec(
            (u8::from_component_spec(u16::from_component_spec(color.luma)),),
        ) == color,
{
    law_u8_u16_round_trip(color.luma);
}

impl<S, T> From<Luma<S, T>> for (T,) {
    /// The components of `color`.
    fn from(color: Luma<S, T>) -> (r: (T,)) {
        color.into_components()
    }
}

impl<S, T> FromSpecImpl<Luma<S, T>> for (T,) {
    open spec fn obeys_from_spec() -> bool {
        true
    }

    open spec fn from_spec(color: Luma<S, T>) -> (T,) {
        (color.luma,)
    }
}

impl<S, T, A> From<Alpha<Luma<S, T>, A>> for (T, A) {
    /// The components and the alpha of `color`.
    fn from(color: Alpha<Luma<S, T>, A>) -> (r: (T, A)) {
        color.into_components()
    }
}

impl<S, T, A> FromSpecImpl<Alpha<Luma<S, T>, A>> for (T, A) {
    open spec fn obeys_from_spec() -> bool {
        true
    }

    open spec fn from_spec(color: Alpha<Luma<S, T>, A>) -> (T, A) {
        (color.color.luma, color.alpha)
    }
}

impl<S, T> From<(T,)> for Luma<S, T> {
    /// The color made of `components`.
    fn from(components: (T,)) -> (r: Self) {
        Self::from_components(components)
    }
}

impl<S, T> FromSpecImpl<(T,)> for Luma<S, T> {
    open spec fn obeys_from_spec() -> bool {
        true
    }

    open spec fn from_spec(components: (T,)) -> Self {
        Self::from_components_spec(components)
    }
}

impl<S, T, A> From<(T, A)> for Alpha<Luma<S, T>, A> {
    /// The color made of `components`, with the last one as alpha.
    fn from(components: (T, A)) -> (r: Self) {
        Self::from_components(components)
    }
}

impl<S, T, A> FromSpecImpl<(T, A)> for Alpha<Luma<S, T>, A> {
    open spec fn obeys_from_spec() -> bool {
        true
    }

    open spec fn from_spec(components: (T, A)) -> Self {
        Alpha { color: Luma::<S, T>::from_components_spec((components.0,)), alpha: components.1 }
    }
}

impl<S, T> From<T> for Luma<S, T> {
    /// A luma color with the luminance `luma`.
    fn from(luma: T) -> (r: Self) {
        Self::new(luma)
    }
}

impl<S, T> FromSpecImpl<T> for Luma<S, T> {
    open spec fn obeys_from_spec() -> bool {
        true
    }

    open spec fn from_spec(luma: T) -> Self {
        Self::from_components_spec((luma,))
    }
}

impl<S> From<Luma<S, u8>> for u8 {
    /// The luminance of `color`.
    fn from(color: Luma<S, u8>) -> (r: u8) {
        color.luma
    }
}

impl<S> FromSpecImpl<Luma<S, u8>> for u8 {
    open spec fn obeys_from_spec() -> bool {
        true
    }

    open spec fn from_spec(color: Luma<S, u8>) -> u8 {
        color.luma
    }
}

impl<S> From<Luma<S, u16>> for u16 {
    /// The luminance of `color`.
    fn from(color: Luma<S, u16>) -> (r: u16) {
        color.luma
    }
}

impl<S> FromSpecImpl<Luma<S, u16>> for u16 {
    open spec fn obeys_from_spec() -> bool {
        true
    }

    open spec fn from_spec(color: Luma<S, u16>) -> u16 {
        color.luma
    }
}

impl<S> From<Luma<S, u32>> for u32 {
    /// The luminance of `color`.
    fn from(color: Luma<S, u32>) -> (r: u32) {
        color.luma
    }
}

impl<S> FromSpecImpl<Luma<S, u32>> for u32 {
    open spec fn obeys_from_spec() -> bool {
        true
    }

    open spec fn from_spec(color: Luma<S, u32>) -> u32 {
        color.luma
    }
}

impl<S> From<Luma<S, u64>> for u64 {
    /// The luminance of `color`.
    fn from(color: Luma<S, u64>) -> (r: u64) {
        color.luma
    }
}

impl<S> FromSpecImpl<Luma<S, u64>> for u64 {
    open spec fn obeys_from_spec() -> bool {
        true
    }

    open spec fn from_spec(color: Luma<S, u64>) -> u64 {
        color.luma
    }
}

impl<S> From<Luma<S, u128>> for u128 {
    /// The luminance of `color`.
    fn from(color: Luma<S, u128>) -> (r: u128) {
        color.luma
    }
}

impl<S> FromSpecImpl<Luma<S, u128>> for u128 {
    open spec fn obeys_from_spec() -> bool {
        true
    }

    open spec fn from_spec(color: Luma<S, u128>) -> u128 {
        color.luma
    }
}

impl<S, T> Default for Luma<S, T> where T: Component {
    /// Black: the smallest luminance.
    fn default() -> (r: Self)
        ensures
            r == Self::from_components_spec((T::zero_spec(),)),
    {
        Luma::new(Self::min_luma())
    }
}

/// `from_components` and `into_components` are inverse to each other.
pub proof fn law_luma_components_round_trip<S, T>(color: Luma<S, T>, components: (T,))
    ensures
        Luma::<S, T>::from_components_spec(color.components_spec()) == color,
        Luma::<S, T>::from_components_spec(components).components_spec() == components,
{
}

/// The arithmetic operators (Add, Sub, Mul, Div) act on each component on its own:
/// combining two colors combines each component of `a` with the matching
/// component of `b`, and combining a color with a number `c` combines each
/// component with `c`, by the component type's own operator.
pub proof fn law_luma_arithmetic_is_componentwise<S, T>(
    a: Luma<S, T>,
    b: Luma<S, T>,
    c: T,
    add_color: Luma<S, T>,
    add_scalar: Luma<S, T>,
    sub_color: Luma<S, T>,
    sub_scalar: Luma<S, T>,
    mul_color: Luma<S, T>,
    mul_scalar: Luma<S, T>,
    div_color: Luma<S, T>,
    div_scalar: Luma<S, T>,
)
    where
        T: Add<Output = T> + Div<Output = T> + Mul<Output = T> + Sub<Output = T> + Copy,
    requires
        T::obeys_add_spec(),
        T::obeys_sub_spec(),
        T::obeys_mul_spec(),
        T::obeys_div_spec(),
        call_ensures(<Luma<S, T> as Add<Luma<S, T>>>::add, (a, b), add_color),
        call_ensures(<Luma<S, T> as Add<T>>::add, (a, c), add_scalar),
        call_ensures(<Luma<S, T> as Sub<Luma<S, T>>>::sub, (a, b), sub_color),
        call_ensures(<Luma<S, T> as Sub<T>>::sub, (a, c), sub_scalar),
        call_ensures(<Luma<S, T> as Mul<Luma<S, T>>>::mul, (a, b), mul_color),
        call_ensures(<Luma<S, T> as Mul<T>>::mul, (a, c), mul_scalar),
        call_ensures(<Luma<S, T> as Div<Luma<S, T>>>::div, (a, b), div_color),
        call_ensures(<Luma<S, T> as Div<T>>::div, (a, c), div_scalar),
    ensures
        add_color.luma == a.luma.add_spec(b.luma),
        add_scalar.luma == a.luma.add_spec(c),
        sub_color.luma == a.luma.sub_spec(b.luma),
        sub_scalar.luma == a.luma.sub_spec(c),
        mul_color.luma == a.luma.mul_spec(b.luma),
        mul_scalar.luma == a.luma.mul_spec(c),
        div_color.luma == a.luma.div_spec(b.luma),
        div_scalar.luma == a.luma.div_spec(c),
{
}

/// With `i32` components, two colors compare equal with `==` exactly when
/// all their components are equal.
pub proof fn law_luma_eq_i32<S>(a: Luma<S, i32>, b: Luma<S, i32>, r: bool)
    requires
        call_ensures(<Luma<S, i32> as PartialEq<Luma<S, i32>>>::eq, (&a, &b), r),
    ensures
        r <==> (a.luma == b.luma),
{
}

/// With `i64` components, two colors compare equal with `==` exactly when
/// all their components are equal.
pub proof fn law_luma_eq_i64<S>(a: Luma<S, i64>, b: Luma<S, i64>, r: bool)
    requires
        call_ensures(<Luma<S, i64> as PartialEq<Luma<S, i64>>>::eq, (&a, &b), r),
    ensures
        r <==> (a.luma == b.luma),
{
}

/// What clamping does to each component: a component with limits is raised
/// to its lower limit when below it, lowered to its upper limit when above
/// it, and kept when within them; the other components are kept. A color is
/// valid exactly when each component with limits is within them.
pub proof fn law_luma_clamp_each_component<S, T: Component + Ord>(c: Luma<S, T>)
    requires
        vstd::laws_cmp::obeys_cmp::<T>(),
        T::zero_spec().is_le(&T::max_intensity_spec()),
    ensures
        c.clamped_spec().luma.is_ge(&T::zero_spec()),
        c.luma.is_lt(&T::zero_spec()) ==> c.clamped_spec().luma == T::zero_spec(),
        c.clamped_spec().luma.is_le(&T::max_intensity_spec()),
        c.luma.is_gt(&T::max_intensity_spec()) ==> c.clamped_spec().luma == T::max_intensity_spec(),
        c.luma.is_ge(&T::zero_spec()) && c.luma.is_le(&T::max_intensity_spec()) ==> c.clamped_spec().luma == c.luma,
        c.valid_spec() <==> (c.luma.is_ge(&T::zero_spec()) && c.luma.is_le(&T::max_intensity_spec())),
{
    reveal(vstd::laws_cmp::obeys_partial_cmp_spec_properties);
    reveal(vstd::laws_cmp::obeys_cmp_partial_ord);
    reveal(vstd::laws_cmp::obeys_cmp_ord);
    crate::law_clamp_within(c.luma, T::zero_spec(), T::max_intensity_spec());
}

/// Building a color from a tuple of components puts each component in its
/// own place, and `into_components` gives the components back in the same
/// order.
pub proof fn law_luma_components_in_place<S, T>(
    components: (T,),
    built: Luma<S, T>,
    color: Luma<S, T>,
    parts: (T,),
)
    requires
        call_ensures(Luma::<S, T>::from_components, (components,), built),
        call_ensures(Luma::<S, T>::into_components, (color,), parts),
    ensures
        built.luma == components.0,
        parts == (color.luma,),
{
}

} // verus!
