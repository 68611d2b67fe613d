//! Generic LMS.

use core::marker::PhantomData;
use crate::alpha::Alpha;
use crate::component::{Component, FromComponent};
use crate::matrix::Mat3;
use crate::num::{One, Zero};
use core::ops::{Add, Sub, Mul, Div};
use crate::{clamp_min, clamp_min_spec, Limited};
use vstd::std_specs::cmp::{PartialOrdIs, PartialOrdSpec};
use crate::law_clamp_min_at_least;
use crate::component::law_u8_u16_round_trip;
use vstd::pervasive::cloned;
use vstd::std_specs::cmp::{PartialEqSpec, PartialEqSpecImpl};
use vstd::prelude::*;
use vstd::std_specs::ops::{
    AddSpec, AddSpecImpl, SubSpec, SubSpecImpl, MulSpec, MulSpecImpl, DivSpec, DivSpecImpl,
};

verus! {

/// Generic LMS.
///
/// LMS represents the response of the eye's cone cells. L, M and S are for
/// "long", "medium" and "short" wavelengths, roughly corresponding to red,
/// green and blue. The LMS color space is a model of the physiological
/// response to color stimuli.
pub struct Lms<M, T> {
    /// Stimulus from long wavelengths, or red, or ρ. The typical range is
    /// between 0.0 and 1.0, but it doesn't have an actual upper bound.
    pub long: T,

    /// Stimulus from medium wavelengths, or green, or γ. The typical range is
    /// between 0.0 and 1.0, but it doesn't have an actual upper bound.
    pub medium: T,

    /// Stimulus from short wavelengths, or blue, or β. The typical range is
    /// between 0.0 and 1.0, but it doesn't have an actual upper bound.
    pub short: T,

    /// Type level meta information, such as reference white, or which matrix
    /// was used when converting from XYZ.
    pub meta: PhantomData<M>,
}

impl<M, T> Copy for Lms<M, T> where T: Copy {

}

impl<M, T> Clone for Lms<M, T> where T: Clone {
    fn clone(&self) -> (r: Lms<M, T>)
        ensures
            cloned(self.long, r.long),
            cloned(self.medium, r.medium),
            cloned(self.short, r.short),
    {
        Lms {
            long: self.long.clone(),
            medium: self.medium.clone(),
            short: self.short.clone(),
            meta: PhantomData,
        }
    }
}

/// Lms with an alpha component.
pub type Lmsa<M, T> = Alpha<Lms<M, T>, T>;

impl<M, T> Lms<M, T> {
    /// The components of `self`, in the order that `into_components` returns them.
    pub open spec fn components_spec(self) -> (T, T, T) {
        (self.long, self.medium, self.short)
    }

    /// The color made of `components`.
    pub open spec fn from_components_spec(components: (T, T, T)) -> Self {
        Lms { long: components.0, medium: components.1, short: components.2, meta: PhantomData }
    }
}

impl<M, T> Lms<M, T> {
    /// Create a new LMS color.
    pub fn new(long: T, medium: T, short: T) -> (r: Self)
        ensures
            r == Self::from_components_spec((long, medium, short)),
    {
        Lms { long, medium, short, meta: PhantomData }
    }

    /// Convert to a `(long, medium, short)` tuple.
    pub fn into_components(self) -> (r: (T, T, T))
        ensures
            r == self.components_spec(),
    {
        (self.long, self.medium, self.short)
    }

    /// Convert from a `(long, medium, short)` tuple.
    pub fn from_components(components: (T, T, T)) -> (r: Self)
        ensures
            r == Self::from_components_spec(components),
    {
        let (long, medium, short) = components;
        Lms { long, medium, short, meta: PhantomData }
    }

    /// Changes the meta type without changing the color value.
    ///
    /// This function doesn't change the numerical values, and thus the stimuli
    /// it represents in an absolute sense. However, the appearance of the color
    /// may not be the same.
    pub fn with_meta<NewM>(self) -> (r: Lms<NewM, T>)
        ensures
            r == Lms::<NewM, T>::from_components_spec(self.components_spec()),
    {
        Lms { long: self.long, medium: self.medium, short: self.short, meta: PhantomData }
    }

    /// Convert the components into another component type.
    pub fn into_format<U>(self) -> (r: Lms<M, U>) where T: Component, U: FromComponent<T>
        ensures
            r == Lms::<M, U>::from_components_spec(
                (
                    U::from_component_spec(self.long),
                    U::from_component_spec(self.medium),
                    U::from_component_spec(self.short),
                ),
            ),
    {
        Lms {
            long: U::from_component(self.long),
            medium: U::from_component(self.medium),
            short: U::from_component(self.short),
            meta: PhantomData,
        }
    }

    /// Convert the components from another component type.
    pub fn from_format<U>(color: Lms<M, U>) -> (r: Self) where U: Component, T: FromComponent<U>
        ensures
            r == Self::from_components_spec(
                (
                    T::from_component_spec(color.long),
                    T::from_component_spec(color.medium),
                    T::from_component_spec(color.short),
                ),
            ),
    {
        color.into_format()
    }
}

impl<M, T> Lms<M, T> where T: Zero {
    /// Return the `short` value minimum.
    pub fn min_short() -> (r: T)
        ensures
            r == T::zero_spec(),
    {
        T::zero()
    }

    /// Return the `medium` value minimum.
    pub fn min_medium() -> (r: T)
        ensures
            r == T::zero_spec(),
    {
        T::zero()
    }

    /// Return the `long` value minimum.
    pub fn min_long() -> (r: T)
        ensures
            r == T::zero_spec(),
    {
        T::zero()
    }
}

impl<M, T, A> Alpha<Lms<M, T>, A> {
    /// Create an LMSA color.
    pub fn new(long: T, medium: T, short: T, alpha: A) -> (r: Self)
        ensures
            r.color == Lms::<M, T>::from_components_spec((long, medium, short)),
            r.alpha == alpha,
    {
        Alpha { color: Lms::<M, T>::new(long, medium, short), alpha }
    }

    /// Convert to a `(long, medium, short, alpha)` tuple.
    pub fn into_components(self) -> (r: (T, T, T, A))
        ensures
            r == (self.color.long, self.color.medium, self.color.short, self.alpha),
    {
        (self.color.long, self.color.medium, self.color.short, self.alpha)
    }

    /// Convert from a `(long, medium, short, alpha)` tuple.
    pub fn from_components(components: (T, T, T, A)) -> (r: Self)
        ensures
            r.color == Lms::<M, T>::from_components_spec(
                (components.0, components.1, components.2),
            ),
            r.alpha == components.3,
    {
        let (long, medium, short, alpha) = components;
        Alpha { color: Lms { long, medium, short, meta: PhantomData }, alpha }
    }

    /// Changes the meta type without changing the color value.
    pub fn with_meta<NewM>(self) -> (r: Alpha<Lms<NewM, T>, A>)
        ensures
            r.color == Lms::<NewM, T>::from_components_spec(self.color.components_spec()),
            r.alpha == self.alpha,
    {
        Alpha { color: self.color.with_meta(), alpha: self.alpha }
    }

    /// Convert the components into other component types.
    pub fn into_format<U, B>(self) -> (r: Alpha<Lms<M, U>, B>) where
        T: Component,
        U: FromComponent<T>,
        A: Component,
        B: FromComponent<A>,

        ensures
            r.color == Lms::<M, U>::from_components_spec(
                (
                    U::from_component_spec(self.color.long),
                    U::from_component_spec(self.color.medium),
                    U::from_component_spec(self.color.short),
                ),
            ),
            r.alpha == B::from_component_spec(self.alpha),
    {
        Alpha { color: self.color.into_format(), alpha: B::from_component(self.alpha) }
    }

    /// Convert the components from other component types.
    pub fn from_format<U, B>(color: Alpha<Lms<M, U>, B>) -> (r: Self) where
        U: Component,
        T: FromComponent<U>,
        B: Component,
        A: FromComponent<B>,

        ensures
            r.color == Lms::<M, T>::from_components_spec(
                (
                    T::from_component_spec(color.color.long),
                    T::from_component_spec(color.color.medium),
                    T::from_component_spec(color.color.short),
                ),
            ),
            r.alpha == A::from_component_spec(color.alpha),
    {
        color.into_format()
    }
}

impl<M, T> Add<Self> for Lms<M, T> where T: Add<Output = T> {
    type Output = Self;

    /// Add each component of `other` to the matching component.
    fn add(self, other: Self) -> (r: Self) {
        Lms {
            long: self.long + other.long,
            medium: self.medium + other.medium,
            short: self.short + other.short,
            meta: PhantomData,
        }
    }
}

impl<M, T> AddSpecImpl<Self> for Lms<M, T> where T: Add<Output = T> {
    open spec fn obeys_add_spec() -> bool {
        T::obeys_add_spec()
    }

    open spec fn add_req(self, rhs: Self) -> bool {
        self.long.add_req(rhs.long)
        && self.medium.add_req(rhs.medium)
        && self.short.add_req(rhs.short)
    }

    open spec fn add_spec(self, rhs: Self) -> Self {
        Lms {
            long: self.long.add_spec(rhs.long),
            medium: self.medium.add_spec(rhs.medium),
            short: self.short.add_spec(rhs.short),
            meta: PhantomData,
        }
    }
}

impl<M, T> Add<T> for Lms<M, T> where T: Add<Output = T> + Copy {
    type Output = Self;

    /// Add `c` to each component.
    fn add(self, c: T) -> (r: Self) {
        Lms {
            long: self.long + c,
            medium: self.medium + c,
            short: self.short + c,
            meta: PhantomData,
        }
    }
}

impl<M, T> AddSpecImpl<T> for Lms<M, T> where T: Add<Output = T> + Copy {
    open spec fn obeys_add_spec() -> bool {
        T::obeys_add_spec()
    }

    open spec fn add_req(self, rhs: T) -> bool {
        self.long.add_req(rhs)
        && self.medium.add_req(rhs)
        && self.short.add_req(rhs)
    }

    open spec fn add_spec(self, rhs: T) -> Self {
        Lms {
            long: self.long.add_spec(rhs),
            medium: self.medium.add_spec(rhs),
            short: self.short.add_spec(rhs),
            meta: PhantomData,
        }
    }
}

impl<M, T> Sub<Self> for Lms<M, T> where T: Sub<Output = T> {
    type Output = Self;

    /// Subtract each component of `other` from the matching component.
    fn sub(self, other: Self) -> (r: Self) {
        Lms {
            long: self.long - other.long,
            medium: self.medium - other.medium,
            short: self.short - other.short,
            meta: PhantomData,
        }
    }
}

impl<M, T> SubSpecImpl<Self> for Lms<M, T> where T: Sub<Output = T> {
    open spec fn obeys_sub_spec() -> bool {
        T::obeys_sub_spec()
    }

    open spec fn sub_req(self, rhs: Self) -> bool {
        self.long.sub_req(rhs.long)
        && self.medium.sub_req(rhs.medium)
        && self.short.sub_req(rhs.short)
    }

    open spec fn sub_spec(self, rhs: Self) -> Self {
        Lms {
            long: self.long.sub_spec(rhs.long),
            medium: self.medium.sub_spec(rhs.medium),
            short: self.short.sub_spec(rhs.short),
            meta: PhantomData,
        }
    }
}

impl<M, T> Sub<T> for Lms<M, T> where T: Sub<Output = T> + Copy {
    type Output = Self;

    /// Subtract `c` from each component.
    fn sub(self, c: T) -> (r: Self) {
        Lms {
            long: self.long - c,
            medium: self.medium - c,
            short: self.short - c,
            meta: PhantomData,
        }
    }
}

impl<M, T> SubSpecImpl<T> for Lms<M, T> where T: Sub<Output = T> + Copy {
    open spec fn obeys_sub_spec() -> bool {
        T::obeys_sub_spec()
    }

    open spec fn sub_req(self, rhs: T) -> bool {
        self.long.sub_req(rhs)
        && self.medium.sub_req(rhs)
        && self.short.sub_req(rhs)
    }

    open spec fn sub_spec(self, rhs: T) -> Self {
        Lms {
            long: self.long.sub_spec(rhs),
            medium: self.medium.sub_spec(rhs),
            short: self.short.sub_spec(rhs),
            meta: PhantomData,
        }
    }
}

impl<M, T> Mul<Self> for Lms<M, T> where T: Mul<Output = T> {
    type Output = Self;

    /// Multiply each component by the matching component of `other`.
    fn mul(self, other: Self) -> (r: Self) {
        Lms {
            long: self.long * other.long,
            medium: self.medium * other.medium,
            short: self.short * other.short,
            meta: PhantomData,
        }
    }
}

impl<M, T> MulSpecImpl<Self> for Lms<M, T> where T: Mul<Output = T> {
    open spec fn obeys_mul_spec() -> bool {
        T::obeys_mul_spec()
    }

    open spec fn mul_req(self, rhs: Self) -> bool {
        self.long.mul_req(rhs.long)
        && self.medium.mul_req(rhs.medium)
        && self.short.mul_req(rhs.short)
    }

    open spec fn mul_spec(self, rhs: Self) -> Self {
        Lms {
            long: self.long.mul_spec(rhs.long),
            medium: self.medium.mul_spec(rhs.medium),
            short: self.short.mul_spec(rhs.short),
            meta: PhantomData,
        }
    }
}

impl<M, T> Mul<T> for Lms<M, T> where T: Mul<Output = T> + Copy {
    type Output = Self;

    /// Multiply each component by `c`.
    fn mul(self, c: T) -> (r: Self) {
        Lms {
            long: self.long * c,
            medium: self.medium * c,
            short: self.short * c,
            meta: PhantomData,
        }
    }
}

impl<M, T> MulSpecImpl<T> for Lms<M, T> where T: Mul<Output = T> + Copy {
    open spec fn obeys_mul_spec() -> bool {
        T::obeys_mul_spec()
    }

    open spec fn mul_req(self, rhs: T) -> bool {
        self.long.mul_req(rhs)
        && self.medium.mul_req(rhs)
        && self.short.mul_req(rhs)
    }

    open spec fn mul_spec(self, rhs: T) -> Self {
        Lms {
            long: self.long.mul_spec(rhs),
            medium: self.medium.mul_spec(rhs),
            short: self.short.mul_spec(rhs),
            meta: PhantomData,
        }
    }
}

impl<M, T> Div<Self> for Lms<M, T> where T: Div<Output = T> {
    type Output = Self;

    /// Divide each component by the matching component of `other`.
    fn div(self, other: Self) -> (r: Self) {
        Lms {
            long: self.long / other.long,
            medium: self.medium / other.medium,
            short: self.short / other.short,
            meta: PhantomData,
        }
    }
}

impl<M, T> DivSpecImpl<Self> for Lms<M, T> where T: Div<Output = T> {
    open spec fn obeys_div_spec() -> bool {
        T::obeys_div_spec()
    }

    open spec fn div_req(self, rhs: Self) -> bool {
        self.long.div_req(rhs.long)
        && self.medium.div_req(rhs.medium)
        && self.short.div_req(rhs.short)
    }

    open spec fn div_spec(self, rhs: Self) -> Self {
        Lms {
            long: self.long.div_spec(rhs.long),
            medium: self.medium.div_spec(rhs.medium),
            short: self.short.div_spec(rhs.short),
            meta: PhantomData,
        }
    }
}

impl<M, T> Div<T> for Lms<M, T> where T: Div<Output = T> + Copy {
    type Output = Self;

    /// Divide each component by `c`.
    fn div(self, c: T) -> (r: Self) {
        Lms {
            long: self.long / c,
            medium: self.medium / c,
            short: self.short / c,
            meta: PhantomData,
        }
    }
}

impl<M, T> DivSpecImpl<T> for Lms<M, T> where T: Div<Output = T> + Copy {
    open spec fn obeys_div_spec() -> bool {
        T::obeys_div_spec()
    }

    open spec fn div_req(self, rhs: T) -> bool {
        self.long.div_req(rhs)
        && self.medium.div_req(rhs)
        && self.short.div_req(rhs)
    }

    open spec fn div_spec(self, rhs: T) -> Self {
        Lms {
            long: self.long.div_spec(rhs),
            medium: self.medium.div_spec(rhs),
            short: self.short.div_spec(rhs),
            meta: PhantomData,
        }
    }
}

impl<M, T> Lms<M, T> where T: Zero + PartialOrd + Copy {
    /// The components that have limits are within them.
    pub open spec fn is_valid_spec(self) -> bool {
        self.long.is_ge(&T::zero_spec())
        && self.medium.is_ge(&T::zero_spec())
        && self.short.is_ge(&T::zero_spec())
    }

    /// The color with the components that have limits clamped to them.
    pub open spec fn clamp_spec(self) -> Self {
        Lms {
            long: clamp_min_spec(self.long, T::zero_spec()),
            medium: clamp_min_spec(self.medium, T::zero_spec()),
            short: clamp_min_spec(self.short, T::zero_spec()),
            meta: self.meta,
        }
    }
}

impl<M, T> Limited for Lms<M, T> where T: Zero + PartialOrd + Copy {
    open spec fn limited_req(&self) -> bool {
        true
    }

    open spec fn obeys_limited_spec() -> bool {
        T::obeys_partial_cmp_spec()
    }

    open spec fn valid_spec(&self) -> bool {
        self.is_valid_spec()
    }

    open spec fn clamped_spec(&self) -> Self {
        self.clamp_spec()
    }

    fn is_valid(&self) -> (r: bool)
        ensures
            T::obeys_partial_cmp_spec() ==> r == self.is_valid_spec(),
    {
        self.long >= Self::min_long()
            && self.medium >= Self::min_medium()
            && self.short >= Self::min_short()
    }

    fn clamp(&self) -> (r: Self)
        ensures
            T::obeys_partial_cmp_spec() ==> r == self.clamp_spec(),
    {
        let mut c = *self;
        c.clamp_self();
        c
    }

    fn clamp_self(&mut self)
        ensures
            T::obeys_partial_cmp_spec() ==> *final(self) == old(self).clamp_spec(),
    {
        self.long = clamp_min(self.long, Self::min_long());
        self.medium = clamp_min(self.medium, Self::min_medium());
        self.short = clamp_min(self.short, Self::min_short());
    }
}

/// Clamping gives a color whose components are within their limits, and a
/// color that is already within them is left as it is.
pub proof fn law_lms_clamp_is_valid<M, T: Zero + Ord + Copy>(color: Lms<M, T>)
    requires
        vstd::laws_cmp::obeys_cmp::<T>(),
    ensures
        color.clamp_spec().is_valid_spec(),
        color.is_valid_spec() ==> color.clamp_spec() == color,
{
    law_clamp_min_at_least(color.long, T::zero_spec());
    law_clamp_min_at_least(color.medium, T::zero_spec());
    law_clamp_min_at_least(color.short, T::zero_spec());
}

impl<M, T> Lms<M, T> {
    /// Produce a conversion matrix from XYZ to LMS, the one that the matrix
    /// type of the meta type `M` provides.
    pub fn matrix_from_xyz() -> (r: Mat3<T>) where M: HasLmsMatrix, M::LmsMatrix: XyzToLms<T>
        ensures
            r == <M::LmsMatrix as XyzToLms<T>>::xyz_to_lms_matrix_spec(),
    {
        M::LmsMatrix::xyz_to_lms_matrix()
    }
}

/// Implemented by meta types that contain an LMS matrix.
pub trait HasLmsMatrix {
    /// The LMS matrix meta type.
    type LmsMatrix;
}

/// Provides a matrix for converting from XYZ to [`Lms`].
pub trait XyzToLms<T> {
    /// The matrix that `xyz_to_lms_matrix` returns.
    spec fn xyz_to_lms_matrix_spec() -> Mat3<T>;

    /// Get an XYZ to [`Lms`] conversion matrix with elements of type `T`.
    fn xyz_to_lms_matrix() -> (r: Mat3<T>)
        ensures
            r == Self::xyz_to_lms_matrix_spec(),
    ;
}

/// Provides a matrix for converting from [`Lms`] to XYZ.
pub trait LmsToXyz<T> {
    /// The matrix that `lms_to_xyz_matrix` returns.
    spec fn lms_to_xyz_matrix_spec() -> Mat3<T>;

    /// Get an [`Lms`] to XYZ conversion matrix with elements of type `T`.
    fn lms_to_xyz_matrix() -> (r: Mat3<T>)
        ensures
            r == Self::lms_to_xyz_matrix_spec(),
    ;
}

/// Adds an LMS matrix `Matrix` to another meta type `M`.
#[derive(Debug, PartialEq, Eq)]
pub struct WithLmsMatrix<M, Matrix>(pub PhantomData<(M, Matrix)>);

impl<M, Matrix> Copy for WithLmsMatrix<M, Matrix> {

}

impl<M, Matrix> Clone for WithLmsMatrix<M, Matrix> {
    fn clone(&self) -> (r: Self)
        ensures
            r == *self,
    {
        WithLmsMatrix(PhantomData)
    }
}

impl<M, Matrix> HasLmsMatrix for WithLmsMatrix<M, Matrix> {
    type LmsMatrix = Matrix;
}

/// Represents the matrix used with the von Kries transform method
/// (M<sub>vonKries</sub>).
///
/// It's also known as the Hunt-Pointer-Estevez matrix (M<sub>HPE</sub>) and was
/// first used in conjunction with the von Kries method for chromatic
/// adaptation. It's also used in the Hunt and RLAB color appearance models.
#[derive(Copy, Clone, Debug, PartialEq, Eq)]
pub struct VonKries;

impl HasLmsMatrix for VonKries {
    type LmsMatrix = Self;
}

/// Represents Bradford's spectrally sharpening matrix (M<sub>BFD</sub>).
///
/// The "spectral sharpening" effect of the Bradford matrix is believed to
/// improve chromatic adaptation, by narrowing the response curves and making L
/// and M more distinct. *It does however not really reflect cone cells*.
///
/// The Bradford matrix is also used in CIECAM97 and LLAB.
#[derive(Copy, Clone, Debug, PartialEq, Eq)]
pub struct Bradford;

impl HasLmsMatrix for Bradford {
    type LmsMatrix = Self;
}

/// Represents a unit matrix, for a 1:1 conversion between XYZ to LMS.
///
/// This matrix may be useful in chromatic adaptation, but does otherwise not
/// represent an actual conversion to and from cone cell responses.
#[derive(Copy, Clone, Debug, PartialEq, Eq)]
pub struct UnitMatrix;

/// The 3x3 unit matrix.
pub open spec fn unit_matrix_spec<T: Zero + One>() -> Mat3<T> {
    [
        T::one_spec(), T::zero_spec(), T::zero_spec(),
        T::zero_spec(), T::one_spec(), T::zero_spec(),
        T::zero_spec(), T::zero_spec(), T::one_spec(),
    ]
}

impl<T> XyzToLms<T> for UnitMatrix where T: Zero + One {
    open spec fn xyz_to_lms_matrix_spec() -> Mat3<T> {
        unit_matrix_spec()
    }

    fn xyz_to_lms_matrix() -> (r: Mat3<T>) {
        [
            T::one(), T::zero(), T::zero(),
            T::zero(), T::one(), T::zero(),
            T::zero(), T::zero(), T::one(),
        ]
    }
}

impl<T> LmsToXyz<T> for UnitMatrix where T: Zero + One {
    open spec fn lms_to_xyz_matrix_spec() -> Mat3<T> {
        unit_matrix_spec()
    }

    fn lms_to_xyz_matrix() -> (r: Mat3<T>) {
        [
            T::one(), T::zero(), T::zero(),
            T::zero(), T::one(), T::zero(),
            T::zero(), T::zero(), T::one(),
        ]
    }
}

impl HasLmsMatrix for UnitMatrix {
    type LmsMatrix = Self;
}

/// Converting an 8-bit LMS color to 16 bits and back gives the same color.
pub proof fn law_lms_format_round_trip<M>(color: Lms<M, u8>)
    ensures
        Lms::<M, u8>::from_components_spec(
            (
                u8::from_component_spec(u16::from_component_spec(color.long)),
                u8::from_component_spec(u16::from_component_spec(color.medium)),
                u8::from_component_spec(u16::from_component_spec(color.short)),
            ),
        ) == color,
{
    law_u8_u16_round_trip(color.long);
    law_u8_u16_round_trip(color.medium);
    law_u8_u16_round_trip(color.short);
}

/// `from_components` and `into_components` are inverse to each other.
pub proof fn law_lms_components_round_trip<M, T>(color: Lms<M, T>, components: (T, T, T))
    ensures
        Lms::<M, T>::from_components_spec(color.components_spec()) == color,
        Lms::<M, T>::from_components_spec(components).components_spec() == components,
{
}

impl<M, T> PartialEq for Lms<M, T> where T: PartialEq {
    /// Compare the components one by one.
    fn eq(&self, other: &Self) -> (r: bool) {
        self.long == other.long && self.medium == other.medium && self.short == other.short
    }
}

impl<M, T> PartialEqSpecImpl for Lms<M, T> where T: PartialEq {
    open spec fn obeys_eq_spec() -> bool {
        T::obeys_eq_spec()
    }

    open spec fn eq_spec(&self, other: &Self) -> bool {
        self.long.eq_spec(&other.long)
        && self.medium.eq_spec(&other.medium)
        && self.short.eq_spec(&other.short)
    }
}

/// The arithmetic operators (Add, Sub, Mul, Div) act on each component on its own:
/// combining two colors combines each component of `a` with the matching
/// component of `b`, and combining a color with a number `c` combines each
/// component with `c`, by the component type's own operator.
pub proof fn law_lms_arithmetic_is_componentwise<M, T>(
    a: Lms<M, T>,
    b: Lms<M, T>,
    c: T,
    add_color: Lms<M, T>,
    add_scalar: Lms<M, T>,
    sub_color: Lms<M, T>,
    sub_scalar: Lms<M, T>,
    mul_color: Lms<M, T>,
    mul_scalar: Lms<M, T>,
    div_color: Lms<M, T>,
    div_scalar: Lms<M, T>,
)
    where
        T: Add<Output = T> + Div<Output = T> + Mul<Output = T> + Sub<Output = T> + Copy,
    requires
        T::obeys_add_spec(),
        T::obeys_sub_spec(),
        T::obeys_mul_spec(),
        T::obeys_div_spec(),
        call_ensures(<Lms<M, T> as Add<Lms<M, T>>>::add, (a, b), add_color),
        call_ensures(<Lms<M, T> as Add<T>>::add, (a, c), add_scalar),
        call_ensures(<Lms<M, T> as Sub<Lms<M, T>>>::sub, (a, b), sub_color),
        call_ensures(<Lms<M, T> as Sub<T>>::sub, (a, c), sub_scalar),
        call_ensures(<Lms<M, T> as Mul<Lms<M, T>>>::mul, (a, b), mul_color),
        call_ensures(<Lms<M, T> as Mul<T>>::mul, (a, c), mul_scalar),
        call_ensures(<Lms<M, T> as Div<Lms<M, T>>>::div, (a, b), div_color),
        call_ensures(<Lms<M, T> as Div<T>>::div, (a, c), div_scalar),
    ensures
        add_color.long == a.long.add_spec(b.long),
        add_color.medium == a.medium.add_spec(b.medium),
        add_color.short == a.short.add_spec(b.short),
        add_scalar.long == a.long.add_spec(c),
        add_scalar.medium == a.medium.add_spec(c),
        add_scalar.short == a.short.add_spec(c),
        sub_color.long == a.long.sub_spec(b.long),
        sub_color.medium == a.medium.sub_spec(b.medium),
        sub_color.short == a.short.sub_spec(b.short),
        sub_scalar.long == a.long.sub_spec(c),
        sub_scalar.medium == a.medium.sub_spec(c),
        sub_scalar.short == a.short.sub_spec(c),
        mul_color.long == a.long.mul_spec(b.long),
        mul_color.medium == a.medium.mul_spec(b.medium),
        mul_color.short == a.short.mul_spec(b.short),
        mul_scalar.long == a.long.mul_spec(c),
        mul_scalar.medium == a.medium.mul_spec(c),
        mul_scalar.short == a.short.mul_spec(c),
        div_color.long == a.long.div_spec(b.long),
        div_color.medium == a.medium.div_spec(b.medium),
        div_color.short == a.short.div_spec(b.short),
        div_scalar.long == a.long.div_spec(c),
        div_scalar.medium == a.medium.div_spec(c),
        div_scalar.short == a.short.div_spec(c),
{
}

/// With `i32` components, two colors compare equal with `==` exactly when
/// all their components are equal.
pub proof fn law_lms_eq_i32<M>(a: Lms<M, i32>, b: Lms<M, i32>, r: bool)
    requires
        call_ensures(<Lms<M, i32> as PartialEq<Lms<M, i32>>>::eq, (&a, &b), r),
    ensures
        r <==> (a.long == b.long && a.medium == b.medium && a.short == b.short),
{
}

/// With `i64` components, two colors compare equal with `==` exactly when
/// all their components are equal.
pub proof fn law_lms_eq_i64<M>(a: Lms<M, i64>, b: Lms<M, i64>, r: bool)
    requires
        call_ensures(<Lms<M, i64> as PartialEq<Lms<M, i64>>>::eq, (&a, &b), r),
    ensures
        r <==> (a.long == b.long && a.medium == b.medium && a.short == b.short),
{
}

/// What clamping does to each component: a component with limits is raised
/// to its lower limit when below it, lowered to its upper limit when above
/// it, and kept when within them; the other components are kept. A color is
/// valid exactly when each component with limits is within them.
pub proof fn law_lms_clamp_each_component<M, T: Zero + Ord + Copy>(c: Lms<M, T>)
    requires
        vstd::laws_cmp::obeys_cmp::<T>(),
    ensures
        c.clamped_spec().long.is_ge(&T::zero_spec()),
        c.long.is_lt(&T::zero_spec()) ==> c.clamped_spec().long == T::zero_spec(),
        c.long.is_ge(&T::zero_spec()) ==> c.clamped_spec().long == c.long,
        c.clamped_spec().medium.is_ge(&T::zero_spec()),
        c.medium.is_lt(&T::zero_spec()) ==> c.clamped_spec().medium == T::zero_spec(),
        c.medium.is_ge(&T::zero_spec()) ==> c.clamped_spec().medium == c.medium,
        c.clamped_spec().short.is_ge(&T::zero_spec()),
        c.short.is_lt(&T::zero_spec()) ==> c.clamped_spec().short == T::zero_spec(),
        c.short.is_ge(&T::zero_spec()) ==> c.clamped_spec().short == c.short,
        c.valid_spec() <==> (c.long.is_ge(&T::zero_spec()) && c.medium.is_ge(&T::zero_spec()) && c.short.is_ge(&T::zero_spec())),
{
    reveal(vstd::laws_cmp::obeys_partial_cmp_spec_properties);
    reveal(vstd::laws_cmp::obeys_cmp_partial_ord);
    reveal(vstd::laws_cmp::obeys_cmp_ord);
    crate::law_clamp_min_at_least(c.long, T::zero_spec());
    crate::law_clamp_min_at_least(c.medium, T::zero_spec());
    crate::law_clamp_min_at_least(c.short, T::zero_spec());
}

/// Building a color from a tuple of components puts each component in its
/// own place, and `into_components` gives the components back in the same
/// order.
pub proof fn law_lms_components_in_place<M, T>(
    components: (T, T, T),
    built: Lms<M, T>,
    color: Lms<M, T>,
    parts: (T, T, T),
)
    requires
        call_ensures(Lms::<M, T>::from_components, (components,), built),
        call_ensures(Lms::<M, T>::into_components, (color,), parts),
    ensures
        built.long == components.0,
        built.medium == components.1,
        built.short == components.2,
        parts == (color.long, color.medium, color.short),
{
}

} // verus!
