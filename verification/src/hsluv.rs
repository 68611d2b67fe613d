//! HSLuv color space.

use core::marker::PhantomData;
use crate::alpha::Alpha;
use crate::hues::LuvHue;
use crate::num::{Zero};
use crate::white_point::D65;
use core::ops::{Add, Sub};
use crate::{GetHue, Hue};
use vstd::std_specs::cmp::{PartialOrdIs, PartialOrdSpec};
use crate::convert::FromColorUnclamped;
use vstd::pervasive::cloned;
use vstd::std_specs::convert::{FromSpecImpl, IntoSpec};
use crate::angle::{angle_arithmetic, SignedAngle};
use crate::num::Arithmetics;
use crate::{clamp, hue_lerp_req, hue_lerp_spec, lerp_req, lerp_spec, unit_factor_spec, Mix};
use crate::{law_hue_lerp_ends_i32, law_lerp_ends_i32};
use vstd::prelude::*;
use vstd::std_specs::ops::{AddSpec, AddSpecImpl, SubSpec, SubSpecImpl};

verus! {

/// HSLuv color space.
///
/// The HSLuv color space can be seen as a cylindrical version of CIELUV,
/// similar to LCHuv, with the additional benefit of stretching the chroma
/// values to a uniform saturation range [0.0, 100.0]. This makes HSLuv much
/// more convenient for generating colors than Lchuv, as the set of valid
/// saturation values is independent of lightness and hue.
pub struct Hsluv<Wp, T> {
    /// The hue of the color, in degrees. Decides if it's red, blue, purple,
    /// etc.
    pub hue: LuvHue<T>,

    /// The colorfulness of the color, as a percentage of the maximum available
    /// chroma. 0.0 gives gray scale colors and 100.0 will give absolutely clear
    /// colors.
    pub saturation: T,

    /// Decides how light the color will look. 0.0 will be black, 50.0 will give
    /// a clear color, and 100.0 will give white.
    pub l: T,

    /// The white point and RGB primaries this color is adapted to.
    pub white_point: PhantomData<Wp>,
}

impl<Wp, T> Copy for Hsluv<Wp, T> where T: Copy {

}

impl<Wp, T> Clone for Hsluv<Wp, T> where T: Clone {
    fn clone(&self) -> (r: Hsluv<Wp, T>)
        ensures
            cloned(self.hue, r.hue),
            cloned(self.saturation, r.saturation),
            cloned(self.l, r.l),
    {
        Hsluv {
            hue: self.hue.clone(),
            saturation: self.saturation.clone(),
            l: self.l.clone(),
            white_point: PhantomData,
        }
    }
}

/// Hsluv with an alpha component.
pub type Hsluva<Wp, T> = Alpha<Hsluv<Wp, T>, T>;

impl<Wp, T> Hsluv<Wp, T> {
    /// The components of `self`, in the order that `into_components` returns them.
    pub open spec fn components_spec(self) -> (LuvHue<T>, T, T) {
        (self.hue, self.saturation, self.l)
    }

    /// The color made of `components`.
    pub open spec fn from_components_spec(components: (LuvHue<T>, T, T)) -> Self {
        Hsluv {
            hue: components.0,
            saturation: components.1,
            l: components.2,
            white_point: PhantomData,
        }
    }
}

impl<Wp, T> Hsluv<Wp, T> {
    /// Create an HSLuv color with a specific white point.
    pub fn with_wp<H: Into<LuvHue<T>>>(hue: H, saturation: T, l: T) -> (r: Self)
        ensures
            call_ensures(<H as Into<LuvHue<T>>>::into, (hue,), r.hue),
            <H as IntoSpec<LuvHue<T>>>::obeys_into_spec() ==> r.hue == hue.into_spec(),
            r == Self::from_components_spec((r.hue, saturation, l)),
    {
        Hsluv { hue: hue.into(), saturation, l, white_point: PhantomData }
    }

    /// Convert to a `(hue, saturation, l)` tuple.
    pub fn into_components(self) -> (r: (LuvHue<T>, T, T))
        ensures
            r == self.components_spec(),
    {
        (self.hue, self.saturation, self.l)
    }

    /// Convert from a `(hue, saturation, l)` tuple.
    pub fn from_components<H: Into<LuvHue<T>>>(components: (H, T, T)) -> (r: Self)
        ensures
            call_ensures(<H as Into<LuvHue<T>>>::into, (components.0,), r.hue),
            <H as IntoSpec<LuvHue<T>>>::obeys_into_spec() ==> r.hue == components.0.into_spec(),
            r == Self::from_components_spec((r.hue, components.1, components.2)),
    {
        let (hue, saturation, l) = components;
        Hsluv { hue: hue.into(), saturation, l, white_point: PhantomData }
    }
}

impl<T> Hsluv<D65, T> {
    /// Create an HSLuv color.
    pub fn new<H: Into<LuvHue<T>>>(hue: H, saturation: T, l: T) -> (r: Self)
        ensures
            call_ensures(<H as Into<LuvHue<T>>>::into, (hue,), r.hue),
            <H as IntoSpec<LuvHue<T>>>::obeys_into_spec() ==> r.hue == hue.into_spec(),
            r == Self::from_components_spec((r.hue, saturation, l)),
    {
        Hsluv { hue: hue.into(), saturation, l, white_point: PhantomData }
    }
}

impl<Wp, T> Hsluv<Wp, T> where T: Zero {
    /// Return the `saturation` value minimum.
    pub fn min_saturation() -> (r: T)
        ensures
            r == T::zero_spec(),
    {
        T::zero()
    }

    /// Return the `l` value minimum.
    pub fn min_l() -> (r: T)
        ensures
            r == T::zero_spec(),
    {
        T::zero()
    }
}

impl<Wp, T, A> Alpha<Hsluv<Wp, T>, A> {
    /// Create an HSLuv color with transparency and a specific white point.
    pub fn with_wp<H: Into<LuvHue<T>>>(hue: H, saturation: T, l: T, alpha: A) -> (r: Self)
        ensures
            call_ensures(<H as Into<LuvHue<T>>>::into, (hue,), r.color.hue),
            <H as IntoSpec<LuvHue<T>>>::obeys_into_spec() ==> r.color.hue == hue.into_spec(),
            r.color == Hsluv::<Wp, T>::from_components_spec((r.color.hue, saturation, l)),
            r.alpha == alpha,
    {
        Alpha { color: Hsluv::<Wp, T>::with_wp(hue, saturation, l), alpha }
    }

    /// Convert to a `(hue, saturation, l, alpha)` tuple.
    pub fn into_components(self) -> (r: (LuvHue<T>, T, T, A))
        ensures
            r == (self.color.hue, self.color.saturation, self.color.l, self.alpha),
    {
        (self.color.hue, self.color.saturation, self.color.l, self.alpha)
    }

    /// Convert from a `(hue, saturation, l, alpha)` tuple.
    pub fn from_components<H: Into<LuvHue<T>>>(components: (H, T, T, A)) -> (r: Self)
        ensures
            call_ensures(<H as Into<LuvHue<T>>>::into, (components.0,), r.color.hue),
            <H as IntoSpec<LuvHue<T>>>::obeys_into_spec() ==>
                r.color.hue == components.0.into_spec(),
            r.color == Hsluv::<Wp, T>::from_components_spec(
                (r.color.hue, components.1, components.2),
            ),
            r.alpha == components.3,
    {
        let (hue, saturation, l, alpha) = components;
        Alpha { color: Hsluv { hue: hue.into(), saturation, l, white_point: PhantomData }, alpha }
    }
}

impl<T, A> Alpha<Hsluv<D65, T>, A> {
    /// Create an HSLuv color with transparency.
    pub fn new<H: Into<LuvHue<T>>>(hue: H, saturation: T, l: T, alpha: A) -> (r: Self)
        ensures
            call_ensures(<H as Into<LuvHue<T>>>::into, (hue,), r.color.hue),
            <H as IntoSpec<LuvHue<T>>>::obeys_into_spec() ==> r.color.hue == hue.into_spec(),
            r.color == Hsluv::<D65, T>::from_components_spec((r.color.hue, saturation, l)),
            r.alpha == alpha,
    {
        Alpha { color: Hsluv::<D65, T>::new(hue, saturation, l), alpha }
    }
}

impl<Wp, T> Add<Self> for Hsluv<Wp, T> where T: Add<Output = T> {
    type Output = Self;

    /// Add each component of `other` to the matching component.
    fn add(self, other: Self) -> (r: Self) {
        Hsluv {
            hue: LuvHue(self.hue.0 + other.hue.0),
            saturation: self.saturation + other.saturation,
            l: self.l + other.l,
            white_point: PhantomData,
        }
    }
}

impl<Wp, T> AddSpecImpl<Self> for Hsluv<Wp, T> where T: Add<Output = T> {
    open spec fn obeys_add_spec() -> bool {
        T::obeys_add_spec()
    }

    open spec fn add_req(self, rhs: Self) -> bool {
        self.hue.0.add_req(rhs.hue.0)
        && self.saturation.add_req(rhs.saturation)
        && self.l.add_req(rhs.l)
    }

    open spec fn add_spec(self, rhs: Self) -> Self {
        Hsluv {
            hue: LuvHue(self.hue.0.add_spec(rhs.hue.0)),
            saturation: self.saturation.add_spec(rhs.saturation),
            l: self.l.add_spec(rhs.l),
            white_point: PhantomData,
        }
    }
}

impl<Wp, T> Add<T> for Hsluv<Wp, T> where T: Add<Output = T> + Copy {
    type Output = Self;

    /// Add `c` to each component.
    fn add(self, c: T) -> (r: Self) {
        Hsluv {
            hue: LuvHue(self.hue.0 + c),
            saturation: self.saturation + c,
            l: self.l + c,
            white_point: PhantomData,
        }
    }
}

impl<Wp, T> AddSpecImpl<T> for Hsluv<Wp, T> where T: Add<Output = T> + Copy {
    open spec fn obeys_add_spec() -> bool {
        T::obeys_add_spec()
    }

    open spec fn add_req(self, rhs: T) -> bool {
        self.hue.0.add_req(rhs)
        && self.saturation.add_req(rhs)
        && self.l.add_req(rhs)
    }

    open spec fn add_spec(self, rhs: T) -> Self {
        Hsluv {
            hue: LuvHue(self.hue.0.add_spec(rhs)),
            saturation: self.saturation.add_spec(rhs),
            l: self.l.add_spec(rhs),
            white_point: PhantomData,
        }
    }
}

impl<Wp, T> Sub<Self> for Hsluv<Wp, T> where T: Sub<Output = T> {
    type Output = Self;

    /// Subtract each component of `other` from the matching component.
    fn sub(self, other: Self) -> (r: Self) {
        Hsluv {
            hue: LuvHue(self.hue.0 - other.hue.0),
            saturation: self.saturation - other.saturation,
            l: self.l - other.l,
            white_point: PhantomData,
        }
    }
}

impl<Wp, T> SubSpecImpl<Self> for Hsluv<Wp, T> where T: Sub<Output = T> {
    open spec fn obeys_sub_spec() -> bool {
        T::obeys_sub_spec()
    }

    open spec fn sub_req(self, rhs: Self) -> bool {
        self.hue.0.sub_req(rhs.hue.0)
        && self.saturation.sub_req(rhs.saturation)
        && self.l.sub_req(rhs.l)
    }

    open spec fn sub_spec(self, rhs: Self) -> Self {
        Hsluv {
            hue: LuvHue(self.hue.0.sub_spec(rhs.hue.0)),
            saturation: self.saturation.sub_spec(rhs.saturation),
            l: self.l.sub_spec(rhs.l),
            white_point: PhantomData,
        }
    }
}

impl<Wp, T> Sub<T> for Hsluv<Wp, T> where T: Sub<Output = T> + Copy {
    type Output = Self;

    /// Subtract `c` from each component.
    fn sub(self, c: T) -> (r: Self) {
        Hsluv {
            hue: LuvHue(self.hue.0 - c),
            saturation: self.saturation - c,
            l: self.l - c,
            white_point: PhantomData,
        }
    }
}

impl<Wp, T> SubSpecImpl<T> for Hsluv<Wp, T> where T: Sub<Output = T> + Copy {
    open spec fn obeys_sub_spec() -> bool {
        T::obeys_sub_spec()
    }

    open spec fn sub_req(self, rhs: T) -> bool {
        self.hue.0.sub_req(rhs)
        && self.saturation.sub_req(rhs)
        && self.l.sub_req(rhs)
    }

    open spec fn sub_spec(self, rhs: T) -> Self {
        Hsluv {
            hue: LuvHue(self.hue.0.sub_spec(rhs)),
            saturation: self.saturation.sub_spec(rhs),
            l: self.l.sub_spec(rhs),
            white_point: PhantomData,
        }
    }
}

impl<Wp, T> GetHue for Hsluv<Wp, T> where T: Zero + PartialOrd + Copy {
    type Hue = LuvHue<T>;

    open spec fn get_hue_req(&self) -> bool {
        true
    }

    open spec fn obeys_get_hue_spec() -> bool {
        T::obeys_partial_cmp_spec()
    }

    open spec fn get_hue_spec(&self) -> Option<LuvHue<T>> {
        (if self.saturation.is_le(&T::zero_spec()) {
            None
        } else {
            Some(self.hue)
        })
    }

    /// The hue, unless the color is a gray (no saturation).
    fn get_hue(&self) -> (r: Option<LuvHue<T>>)
    {
        if self.saturation <= T::zero() { None } else { Some(self.hue) }
    }
}

impl<Wp, T> Hue for Hsluv<Wp, T> where T: Zero + PartialOrd + Copy + Add<Output = T> {
    open spec fn shift_hue_req(&self, amount: LuvHue<T>) -> bool {
        self.hue.0.add_req(amount.0)
    }

    open spec fn with_hue_spec(&self, hue: LuvHue<T>) -> Self {
        Hsluv {
            hue,
            saturation: self.saturation,
            l: self.l,
            white_point: PhantomData,
        }
    }

    open spec fn obeys_shift_hue_spec() -> bool {
        T::obeys_add_spec()
    }

    open spec fn shift_hue_spec(&self, amount: LuvHue<T>) -> Self {
        Hsluv {
            hue: LuvHue(self.hue.0.add_spec(amount.0)),
            saturation: self.saturation,
            l: self.l,
            white_point: PhantomData,
        }
    }

    fn with_hue<H: Into<LuvHue<T>>>(&self, hue: H) -> (r: Self)
        ensures
            call_ensures(<H as Into<LuvHue<T>>>::into, (hue,), r.hue),
            <H as IntoSpec<LuvHue<T>>>::obeys_into_spec() ==> r.hue == hue.into_spec(),
            r.saturation == self.saturation,
            r.l == self.l,
    {
        Hsluv {
            hue: hue.into(),
            saturation: self.saturation,
            l: self.l,
            white_point: PhantomData,
        }
    }

    fn shift_hue(&self, amount: LuvHue<T>) -> (r: Self)
        ensures
            T::obeys_add_spec() ==> r.hue.0 == self.hue.0.add_spec(amount.0),
            r.saturation == self.saturation,
            r.l == self.l,
    {
        Hsluv {
            hue: LuvHue(self.hue.0 + amount.0),
            saturation: self.saturation,
            l: self.l,
            white_point: PhantomData,
        }
    }
}

impl<Wp, T> FromColorUnclamped<Hsluv<Wp, T>> for Hsluv<Wp, T> {
    open spec fn from_color_unclamped_req(val: Hsluv<Wp, T>) -> bool {
        true
    }

    /// The same color.
    fn from_color_unclamped(color: Hsluv<Wp, T>) -> (r: Self)
        ensures
            r == color,
    {
        color
    }
}

impl<Wp, T> From<Hsluv<Wp, T>> for (LuvHue<T>, T, T) {
    /// The components of `color`.
    fn from(color: Hsluv<Wp, T>) -> (r: (LuvHue<T>, T, T)) {
        color.into_components()
    }
}

impl<Wp, T> FromSpecImpl<Hsluv<Wp, T>> for (LuvHue<T>, T, T) {
    open spec fn obeys_from_spec() -> bool {
        true
    }

    open spec fn from_spec(color: Hsluv<Wp, T>) -> (LuvHue<T>, T, T) {
        (color.hue, color.saturation, color.l)
    }
}

impl<Wp, T, A> From<Alpha<Hsluv<Wp, T>, A>> for (LuvHue<T>, T, T, A) {
    /// The components and the alpha of `color`.
    fn from(color: Alpha<Hsluv<Wp, T>, A>) -> (r: (LuvHue<T>, T, T, A)) {
        color.into_components()
    }
}

impl<Wp, T, A> FromSpecImpl<Alpha<Hsluv<Wp, T>, A>> for (LuvHue<T>, T, T, A) {
    open spec fn obeys_from_spec() -> bool {
        true
    }

    open spec fn from_spec(color: Alpha<Hsluv<Wp, T>, A>) -> (LuvHue<T>, T, T, A) {
        (color.color.hue, color.color.saturation, color.color.l, color.alpha)
    }
}

impl<Wp, T, HH: Into<LuvHue<T>>> From<(HH, T, T)> for Hsluv<Wp, T> {
    /// The color made of `components`, with the hue converted.
    fn from(components: (HH, T, T)) -> (r: Self) {
        Hsluv {
            hue: components.0.into(),
            saturation: components.1,
            l: components.2,
            white_point: PhantomData,
        }
    }
}

impl<Wp, T, HH: Into<LuvHue<T>>> FromSpecImpl<(HH, T, T)> for Hsluv<Wp, T> {
    open spec fn obeys_from_spec() -> bool {
        <HH as IntoSpec<LuvHue<T>>>::obeys_into_spec()
    }

    open spec fn from_spec(components: (HH, T, T)) -> Self {
        Hsluv {
            hue: components.0.into_spec(),
            saturation: components.1,
            l: components.2,
            white_point: PhantomData,
        }
    }
}

impl<Wp, T, HH: Into<LuvHue<T>>, A> From<(HH, T, T, A)> for Alpha<Hsluv<Wp, T>, A> {
    /// The color made of `components`, with the hue converted and the last
    /// one as alpha.
    fn from(components: (HH, T, T, A)) -> (r: Self) {
        Alpha {
            color: Hsluv {
                hue: components.0.into(),
                saturation: components.1,
                l: components.2,
                white_point: PhantomData,
            },
            alpha: components.3,
        }
    }
}

impl<Wp, T, HH: Into<LuvHue<T>>, A> FromSpecImpl<(HH, T, T, A)> for Alpha<Hsluv<Wp, T>, A> {
    open spec fn obeys_from_spec() -> bool {
        <HH as IntoSpec<LuvHue<T>>>::obeys_into_spec()
    }

    open spec fn from_spec(components: (HH, T, T, A)) -> Self {
        Alpha {
            color: Hsluv {
                hue: components.0.into_spec(),
                saturation: components.1,
                l: components.2,
                white_point: PhantomData,
            },
            alpha: components.3,
        }
    }
}

impl<Wp, T> Default for Hsluv<Wp, T> where T: Zero {
    /// Black: all components zero.
    fn default() -> (r: Self)
        ensures
            r == Self::from_components_spec(
                (LuvHue(T::zero_spec()), T::zero_spec(), T::zero_spec()),
            ),
    {
        Hsluv::with_wp(LuvHue::from(T::zero()), T::zero(), T::zero())
    }
}

impl<Wp, T> Mix for Hsluv<Wp, T> where T: Arithmetics + PartialOrd + From<i16> + Copy {
    type Scalar = T;

    open spec fn mix_req(&self, other: &Self, factor: T) -> bool {
        let f = unit_factor_spec(factor);
        &&& angle_arithmetic::<T>()
        &&& hue_lerp_req(self.hue.0, other.hue.0, f)
        &&& lerp_req(self.saturation, other.saturation, f)
        &&& lerp_req(self.l, other.l, f)
    }

    open spec fn mix_spec(&self, other: &Self, factor: T) -> Self {
        let f = unit_factor_spec(factor);
        Hsluv {
            hue: LuvHue(hue_lerp_spec(self.hue.0, other.hue.0, f)),
            saturation: lerp_spec(self.saturation, other.saturation, f),
            l: lerp_spec(self.l, other.l, f),
            white_point: PhantomData,
        }
    }

    /// Clamps `factor` to `[0, 1]`, turns the hue by that fraction of the
    /// shortest turn towards the hue of `other`, and moves the other
    /// components by that fraction of the way to those of `other`.
    fn mix(&self, other: &Self, factor: T) -> (r: Self)
        ensures
            r.hue.0 == hue_lerp_spec(self.hue.0, other.hue.0, unit_factor_spec(factor)),
            r.saturation == lerp_spec(self.saturation, other.saturation, unit_factor_spec(factor)),
            r.l == lerp_spec(self.l, other.l, unit_factor_spec(factor)),
    {
        let factor = clamp(factor, T::from(0i16), T::from(1i16));
        let hue_diff = (other.hue.0 - self.hue.0).normalize_signed_angle();
        Hsluv {
            hue: LuvHue(self.hue.0 + factor * hue_diff),
            saturation: self.saturation + factor * (other.saturation - self.saturation),
            l: self.l + factor * (other.l - self.l),
            white_point: PhantomData,
        }
    }
}

/// Building a transparent HSLuv color from the components that
/// `into_components` gives back returns the color it started from: the hue
/// passes unchanged through its conversion into itself.
pub proof fn law_hsluva_components_round_trip<Wp, T, A>(
    color: Alpha<Hsluv<Wp, T>, A>,
    r: Alpha<Hsluv<Wp, T>, A>,
)
    requires
        call_ensures(
            Alpha::<Hsluv<Wp, T>, A>::from_components::<LuvHue<T>>,
            ((color.color.hue, color.color.saturation, color.color.l, color.alpha),),
            r,
        ),
    ensures
        r == color,
{
    assert(call_ensures(LuvHue::<T>::from, (color.color.hue,), r.color.hue));
}

/// `from_components` with a hue of any type that converts into `LuvHue`
/// builds the same transparent color as `with_wp` with the same hue,
/// saturation, lightness and alpha: both keep saturation, lightness and alpha
/// as given and take a hue that the conversion gives for `hue`, so the two
/// are equal wherever that conversion has one result for `hue`.
pub proof fn law_hsluva_from_components_is_with_wp<Wp, T, A, H: Into<LuvHue<T>>>(
    hue: H,
    saturation: T,
    l: T,
    alpha: A,
    r1: Alpha<Hsluv<Wp, T>, A>,
    r2: Alpha<Hsluv<Wp, T>, A>,
)
    requires
        call_ensures(
            Alpha::<Hsluv<Wp, T>, A>::from_components::<H>,
            ((hue, saturation, l, alpha),),
            r1,
        ),
        call_ensures(Alpha::<Hsluv<Wp, T>, A>::with_wp::<H>, (hue, saturation, l, alpha), r2),
    ensures
        r1.color.saturation == saturation && r2.color.saturation == saturation,
        r1.color.l == l && r2.color.l == l,
        r1.alpha == alpha && r2.alpha == alpha,
        call_ensures(<H as Into<LuvHue<T>>>::into, (hue,), r1.color.hue),
        call_ensures(<H as Into<LuvHue<T>>>::into, (hue,), r2.color.hue),
        (forall|x: LuvHue<T>, y: LuvHue<T>|
            call_ensures(<H as Into<LuvHue<T>>>::into, (hue,), x) && call_ensures(
                <H as Into<LuvHue<T>>>::into,
                (hue,),
                y,
            ) ==> x == y) ==> r1 == r2,
{
}

/// `from_components` and `into_components` are inverse to each other.
pub proof fn law_hsluv_components_round_trip<Wp, T>(
    color: Hsluv<Wp, T>,
    components: (LuvHue<T>, T, T),
)
    ensures
        Hsluv::<Wp, T>::from_components_spec(color.components_spec()) == color,
        Hsluv::<Wp, T>::from_components_spec(components).components_spec() == components,
{
}

/// With `i32` components, mixing HSLuv colors by `0` gives the first color,
/// and mixing by `1` gives the other components of the second color and a
/// hue in the direction of its hue.
pub proof fn law_hsluv_mix_ends<Wp>(a: Hsluv<Wp, i32>, b: Hsluv<Wp, i32>)
    requires
        a.mix_req(&b, 0i32),
        a.mix_req(&b, 1i32),
    ensures
        a.mix_spec(&b, 0i32) == a,
        (a.mix_spec(&b, 1i32).hue.0 - b.hue.0) % 360 == 0,
        lerp_spec(a.saturation, b.saturation, unit_factor_spec(1i32)) == b.saturation,
        lerp_spec(a.l, b.l, unit_factor_spec(1i32)) == b.l,
{
    law_hue_lerp_ends_i32(a.hue.0, b.hue.0);
    law_lerp_ends_i32(a.saturation, b.saturation);
    law_lerp_ends_i32(a.l, b.l);
}

/// The arithmetic operators (Add, Sub) act on each component on its own:
/// combining two colors combines each component of `a` with the matching
/// component of `b`, and combining a color with a number `c` combines each
/// component with `c`, by the component type's own operator.
pub proof fn law_hsluv_arithmetic_is_componentwise<Wp, T>(
    a: Hsluv<Wp, T>,
    b: Hsluv<Wp, T>,
    c: T,
    add_color: Hsluv<Wp, T>,
    add_scalar: Hsluv<Wp, T>,
    sub_color: Hsluv<Wp, T>,
    sub_scalar: Hsluv<Wp, T>,
)
    where
        T: Add<Output = T> + Sub<Output = T> + Copy,
    requires
        T::obeys_add_spec(),
        T::obeys_sub_spec(),
        call_ensures(<Hsluv<Wp, T> as Add<Hsluv<Wp, T>>>::add, (a, b), add_color),
        call_ensures(<Hsluv<Wp, T> as Add<T>>::add, (a, c), add_scalar),
        call_ensures(<Hsluv<Wp, T> as Sub<Hsluv<Wp, T>>>::sub, (a, b), sub_color),
        call_ensures(<Hsluv<Wp, T> as Sub<T>>::sub, (a, c), sub_scalar),
    ensures
        add_color.hue.0 == a.hue.0.add_spec(b.hue.0),
        add_color.saturation == a.saturation.add_spec(b.saturation),
        add_color.l == a.l.add_spec(b.l),
        add_scalar.hue.0 == a.hue.0.add_spec(c),
        add_scalar.saturation == a.saturation.add_spec(c),
        add_scalar.l == a.l.add_spec(c),
        sub_color.hue.0 == a.hue.0.sub_spec(b.hue.0),
        sub_color.saturation == a.saturation.sub_spec(b.saturation),
        sub_color.l == a.l.sub_spec(b.l),
        sub_scalar.hue.0 == a.hue.0.sub_spec(c),
        sub_scalar.saturation == a.saturation.sub_spec(c),
        sub_scalar.l == a.l.sub_spec(c),
{
}

/// `get_hue` gives the hue, or `None` where the color has no well defined
/// hue.
pub proof fn law_hsluv_get_hue<Wp, T>(c: Hsluv<Wp, T>, r: Option<LuvHue<T>>)
    where
        T: Zero + PartialOrd + Copy,
    requires
        T::obeys_partial_cmp_spec(),
        call_ensures(Hsluv::<Wp, T>::get_hue, (&c,), r),
    ensures
        r == {
            (if c.saturation.is_le(&T::zero_spec()) {
                None
            } else {
                Some(c.hue)
            })
        },
{
}

/// Building a color from a tuple of components puts each component in its
/// own place, and `into_components` gives the components back in the same
/// order.
pub proof fn law_hsluv_components_in_place<Wp, T>(
    components: (LuvHue<T>, T, T),
    built: Hsluv<Wp, T>,
    color: Hsluv<Wp, T>,
    parts: (LuvHue<T>, T, T),
)
    requires
        call_ensures(Hsluv::<Wp, T>::from_components::<LuvHue<T>>, (components,), built),
        call_ensures(Hsluv::<Wp, T>::into_components, (color,), parts),
    ensures
        built.hue == components.0,
        built.saturation == components.1,
        built.l == components.2,
        parts == (color.hue, color.saturation, color.l),
{
    assert(call_ensures(LuvHue::<T>::from, (components.0,), built.hue));
}

} // verus!
