//! HWB color space.

use core::marker::PhantomData;
use crate::alpha::Alpha;
use crate::component::{Component};
use crate::encoding::Srgb;
use crate::hues::RgbHue;
use core::ops::{Add, Div, Mul, Neg, Sub};
use crate::{GetHue, Hue};
use crate::num::{MinMax, One, Zero};
use crate::{within_spec, Limited, Shade};
use vstd::std_specs::ops::DivSpec;
use vstd::std_specs::cmp::{PartialOrdIs, PartialOrdSpec};
use vstd::arithmetic::div_mod::{lemma_div_pos_is_pos, lemma_fundamental_div_mod, lemma_mod_bound};
use crate::convert::FromColorUnclamped;
use crate::hsv::Hsv;
use vstd::std_specs::ops::MulSpec;
use vstd::pervasive::cloned;
use vstd::std_specs::convert::{FromSpecImpl, IntoSpec};
use crate::angle::{angle_arithmetic, SignedAngle};
use crate::num::Arithmetics;
use crate::{
    clamp, hue_lerp_req, hue_lerp_spec, law_hue_lerp_ends_i32, law_lerp_ends_i32, lerp_req,
    lerp_spec, unit_factor_spec, Mix,
};
use vstd::prelude::*;
use vstd::std_specs::ops::{AddSpec, AddSpecImpl, SubSpec, SubSpecImpl};

verus! {

/// HWB color space.
///
/// HWB is a cylindrical version of RGB and it's very closely related to HSV.
/// It describes colors with a starting hue, then a degree of whiteness and
/// blackness to mix into that base hue.
pub struct Hwb<S, T> {
    /// The hue of the color, in degrees. Decides if it's red, blue, purple,
    /// etc. Same as the hue for HSL and HSV.
    pub hue: RgbHue<T>,

    /// The whiteness of the color. It specifies the amount white to mix into
    /// the hue.
    pub whiteness: T,

    /// The blackness of the color. It specifies the amount black to mix into
    /// the hue.
    pub blackness: T,

    /// The white point and RGB primaries this color is adapted to.
    pub standard: PhantomData<S>,
}

impl<S, T> Copy for Hwb<S, T> where T: Copy {

}

impl<S, T> Clone for Hwb<S, T> where T: Clone {
    fn clone(&self) -> (r: Hwb<S, T>)
        ensures
            cloned(self.hue, r.hue),
            cloned(self.whiteness, r.whiteness),
            cloned(self.blackness, r.blackness),
    {
        Hwb {
            hue: self.hue.clone(),
            whiteness: self.whiteness.clone(),
            blackness: self.blackness.clone(),
            standard: PhantomData,
        }
    }
}

/// Hwb with an alpha component.
pub type Hwba<S, T> = Alpha<Hwb<S, T>, T>;

impl<S, T> Hwb<S, T> {
    /// The components of `self`, in the order that `into_components` returns them.
    pub open spec fn components_spec(self) -> (RgbHue<T>, T, T) {
        (self.hue, self.whiteness, self.blackness)
    }

    /// The color made of `components`.
    pub open spec fn from_components_spec(components: (RgbHue<T>, T, T)) -> Self {
        Hwb {
            hue: components.0,
            whiteness: components.1,
            blackness: components.2,
            standard: PhantomData,
        }
    }
}

impl<S, T> Hwb<S, T> {
    /// Create an HWB color, with a specific RGB standard.
    pub fn with_wp<H: Into<RgbHue<T>>>(hue: H, whiteness: T, blackness: T) -> (r: Self)
        ensures
            call_ensures(<H as Into<RgbHue<T>>>::into, (hue,), r.hue),
            <H as IntoSpec<RgbHue<T>>>::obeys_into_spec() ==> r.hue == hue.into_spec(),
            r == Self::from_components_spec((r.hue, whiteness, blackness)),
    {
        Hwb { hue: hue.into(), whiteness, blackness, standard: PhantomData }
    }

    /// Convert to a `(hue, whiteness, blackness)` tuple.
    pub fn into_components(self) -> (r: (RgbHue<T>, T, T))
        ensures
            r == self.components_spec(),
    {
        (self.hue, self.whiteness, self.blackness)
    }

    /// Convert from a `(hue, whiteness, blackness)` tuple.
    pub fn from_components<H: Into<RgbHue<T>>>(components: (H, T, T)) -> (r: Self)
        ensures
            call_ensures(<H as Into<RgbHue<T>>>::into, (components.0,), r.hue),
            <H as IntoSpec<RgbHue<T>>>::obeys_into_spec() ==> r.hue == components.0.into_spec(),
            r == Self::from_components_spec((r.hue, components.1, components.2)),
    {
        let (hue, whiteness, blackness) = components;
        Hwb { hue: hue.into(), whiteness, blackness, standard: PhantomData }
    }
}

impl<T> Hwb<Srgb, T> {
    /// Create an sRGB HWB color.
    pub fn new<H: Into<RgbHue<T>>>(hue: H, whiteness: T, blackness: T) -> (r: Self)
        ensures
            call_ensures(<H as Into<RgbHue<T>>>::into, (hue,), r.hue),
            <H as IntoSpec<RgbHue<T>>>::obeys_into_spec() ==> r.hue == hue.into_spec(),
            r == Self::from_components_spec((r.hue, whiteness, blackness)),
    {
        Hwb { hue: hue.into(), whiteness, blackness, standard: PhantomData }
    }
}

impl<S, T> Hwb<S, T> where T: Component {
    /// Return the `whiteness` value minimum.
    pub fn min_whiteness() -> (r: T)
        ensures
            r == T::zero_spec(),
    {
        T::zero()
    }

    /// Return the `whiteness` value maximum.
    pub fn max_whiteness() -> (r: T)
        ensures
            r == T::max_intensity_spec(),
    {
        T::max_intensity()
    }

    /// Return the `blackness` value minimum.
    pub fn min_blackness() -> (r: T)
        ensures
            r == T::zero_spec(),
    {
        T::zero()
    }

    /// Return the `blackness` value maximum.
    pub fn max_blackness() -> (r: T)
        ensures
            r == T::max_intensity_spec(),
    {
        T::max_intensity()
    }
}

impl<S, T, A> Alpha<Hwb<S, T>, A> {
    /// Create an HWB color with transparency, with a specific RGB standard.
    pub fn with_wp<H: Into<RgbHue<T>>>(hue: H, whiteness: T, blackness: T, alpha: A) -> (r: Self)
        ensures
            call_ensures(<H as Into<RgbHue<T>>>::into, (hue,), r.color.hue),
            <H as IntoSpec<RgbHue<T>>>::obeys_into_spec() ==> r.color.hue == hue.into_spec(),
            r.color == Hwb::<S, T>::from_components_spec((r.color.hue, whiteness, blackness)),
            r.alpha == alpha,
    {
        Alpha { color: Hwb::<S, T>::with_wp(hue, whiteness, blackness), alpha }
    }

    /// Convert to a `(hue, whiteness, blackness, alpha)` tuple.
    pub fn into_components(self) -> (r: (RgbHue<T>, T, T, A))
        ensures
            r == (self.color.hue, self.color.whiteness, self.color.blackness, self.alpha),
    {
        (self.color.hue, self.color.whiteness, self.color.blackness, self.alpha)
    }

    /// Convert from a `(hue, whiteness, blackness, alpha)` tuple.
    pub fn from_components<H: Into<RgbHue<T>>>(components: (H, T, T, A)) -> (r: Self)
        ensures
            call_ensures(<H as Into<RgbHue<T>>>::into, (components.0,), r.color.hue),
            <H as IntoSpec<RgbHue<T>>>::obeys_into_spec() ==>
                r.color.hue == components.0.into_spec(),
            r.color == Hwb::<S, T>::from_components_spec((r.color.hue, components.1, components.2)),
            r.alpha == components.3,
    {
        let (hue, whiteness, blackness, alpha) = components;
        Alpha { color: Hwb { hue: hue.into(), whiteness, blackness, standard: PhantomData }, alpha }
    }
}

impl<T, A> Alpha<Hwb<Srgb, T>, A> {
    /// Create an sRGB HWB color with transparency.
    pub fn new<H: Into<RgbHue<T>>>(hue: H, whiteness: T, blackness: T, alpha: A) -> (r: Self)
        ensures
            call_ensures(<H as Into<RgbHue<T>>>::into, (hue,), r.color.hue),
            <H as IntoSpec<RgbHue<T>>>::obeys_into_spec() ==> r.color.hue == hue.into_spec(),
            r.color == Hwb::<Srgb, T>::from_components_spec((r.color.hue, whiteness, blackness)),
            r.alpha == alpha,
    {
        Alpha { color: Hwb::<Srgb, T>::new(hue, whiteness, blackness), alpha }
    }
}

impl<S, T> Add<Self> for Hwb<S, T> where T: Add<Output = T> {
    type Output = Self;

    /// Add each component of `other` to the matching component.
    fn add(self, other: Self) -> (r: Self) {
        Hwb {
            hue: RgbHue(self.hue.0 + other.hue.0),
            whiteness: self.whiteness + other.whiteness,
            blackness: self.blackness + other.blackness,
            standard: PhantomData,
        }
    }
}

impl<S, T> AddSpecImpl<Self> for Hwb<S, T> where T: Add<Output = T> {
    open spec fn obeys_add_spec() -> bool {
        T::obeys_add_spec()
    }

    open spec fn add_req(self, rhs: Self) -> bool {
        self.hue.0.add_req(rhs.hue.0)
        && self.whiteness.add_req(rhs.whiteness)
        && self.blackness.add_req(rhs.blackness)
    }

    open spec fn add_spec(self, rhs: Self) -> Self {
        Hwb {
            hue: RgbHue(self.hue.0.add_spec(rhs.hue.0)),
            whiteness: self.whiteness.add_spec(rhs.whiteness),
            blackness: self.blackness.add_spec(rhs.blackness),
            standard: PhantomData,
        }
    }
}

impl<S, T> Add<T> for Hwb<S, T> where T: Add<Output = T> + Copy {
    type Output = Self;

    /// Add `c` to each component.
    fn add(self, c: T) -> (r: Self) {
        Hwb {
            hue: RgbHue(self.hue.0 + c),
            whiteness: self.whiteness + c,
            blackness: self.blackness + c,
            standard: PhantomData,
        }
    }
}

impl<S, T> AddSpecImpl<T> for Hwb<S, T> where T: Add<Output = T> + Copy {
    open spec fn obeys_add_spec() -> bool {
        T::obeys_add_spec()
    }

    open spec fn add_req(self, rhs: T) -> bool {
        self.hue.0.add_req(rhs)
        && self.whiteness.add_req(rhs)
        && self.blackness.add_req(rhs)
    }

    open spec fn add_spec(self, rhs: T) -> Self {
        Hwb {
            hue: RgbHue(self.hue.0.add_spec(rhs)),
            whiteness: self.whiteness.add_spec(rhs),
            blackness: self.blackness.add_spec(rhs),
            standard: PhantomData,
        }
    }
}

impl<S, T> Sub<Self> for Hwb<S, T> where T: Sub<Output = T> {
    type Output = Self;

    /// Subtract each component of `other` from the matching component.
    fn sub(self, other: Self) -> (r: Self) {
        Hwb {
            hue: RgbHue(self.hue.0 - other.hue.0),
            whiteness: self.whiteness - other.whiteness,
            blackness: self.blackness - other.blackness,
            standard: PhantomData,
        }
    }
}

impl<S, T> SubSpecImpl<Self> for Hwb<S, T> where T: Sub<Output = T> {
    open spec fn obeys_sub_spec() -> bool {
        T::obeys_sub_spec()
    }

    open spec fn sub_req(self, rhs: Self) -> bool {
        self.hue.0.sub_req(rhs.hue.0)
        && self.whiteness.sub_req(rhs.whiteness)
        && self.blackness.sub_req(rhs.blackness)
    }

    open spec fn sub_spec(self, rhs: Self) -> Self {
        Hwb {
            hue: RgbHue(self.hue.0.sub_spec(rhs.hue.0)),
            whiteness: self.whiteness.sub_spec(rhs.whiteness),
            blackness: self.blackness.sub_spec(rhs.blackness),
            standard: PhantomData,
        }
    }
}

impl<S, T> Sub<T> for Hwb<S, T> where T: Sub<Output = T> + Copy {
    type Output = Self;

    /// Subtract `c` from each component.
    fn sub(self, c: T) -> (r: Self) {
        Hwb {
            hue: RgbHue(self.hue.0 - c),
            whiteness: self.whiteness - c,
            blackness: self.blackness - c,
            standard: PhantomData,
        }
    }
}

impl<S, T> SubSpecImpl<T> for Hwb<S, T> where T: Sub<Output = T> + Copy {
    open spec fn obeys_sub_spec() -> bool {
        T::obeys_sub_spec()
    }

    open spec fn sub_req(self, rhs: T) -> bool {
        self.hue.0.sub_req(rhs)
        && self.whiteness.sub_req(rhs)
        && self.blackness.sub_req(rhs)
    }

    open spec fn sub_spec(self, rhs: T) -> Self {
        Hwb {
            hue: RgbHue(self.hue.0.sub_spec(rhs)),
            whiteness: self.whiteness.sub_spec(rhs),
            blackness: self.blackness.sub_spec(rhs),
            standard: PhantomData,
        }
    }
}

impl<S, T> GetHue for Hwb<S, T> where T: One + Add<Output = T> + PartialOrd + Copy {
    type Hue = RgbHue<T>;

    open spec fn get_hue_req(&self) -> bool {
        self.whiteness.add_req(self.blackness)
    }

    open spec fn obeys_get_hue_spec() -> bool {
        T::obeys_partial_cmp_spec() && T::obeys_add_spec()
    }

    open spec fn get_hue_spec(&self) -> Option<RgbHue<T>> {
        (if self.whiteness.add_spec(
            self.blackness,
        ).is_ge(&T::one_spec()) {
            None
        } else {
            Some(self.hue)
        })
    }

    /// The hue, unless the color is a gray (whiteness and blackness add up to one or more).
    fn get_hue(&self) -> (r: Option<RgbHue<T>>)
    {
        if self.whiteness + self.blackness >= T::one() { None } else { Some(self.hue) }
    }
}

impl<S, T> Hue for Hwb<S, T> where T: One + Add<Output = T> + PartialOrd + Copy + Add<Output = T> {
    open spec fn shift_hue_req(&self, amount: RgbHue<T>) -> bool {
        self.hue.0.add_req(amount.0)
    }

    open spec fn with_hue_spec(&self, hue: RgbHue<T>) -> Self {
        Hwb {
            hue,
            whiteness: self.whiteness,
            blackness: self.blackness,
            standard: PhantomData,
        }
    }

    open spec fn obeys_shift_hue_spec() -> bool {
        T::obeys_add_spec()
    }

    open spec fn shift_hue_spec(&self, amount: RgbHue<T>) -> Self {
        Hwb {
            hue: RgbHue(self.hue.0.add_spec(amount.0)),
            whiteness: self.whiteness,
            blackness: self.blackness,
            standard: PhantomData,
        }
    }

    fn with_hue<H: Into<RgbHue<T>>>(&self, hue: H) -> (r: Self)
        ensures
            call_ensures(<H as Into<RgbHue<T>>>::into, (hue,), r.hue),
            <H as IntoSpec<RgbHue<T>>>::obeys_into_spec() ==> r.hue == hue.into_spec(),
            r.whiteness == self.whiteness,
            r.blackness == self.blackness,
    {
        Hwb {
            hue: hue.into(),
            whiteness: self.whiteness,
            blackness: self.blackness,
            standard: PhantomData,
        }
    }

    fn shift_hue(&self, amount: RgbHue<T>) -> (r: Self)
        ensures
            T::obeys_add_spec() ==> r.hue.0 == self.hue.0.add_spec(amount.0),
            r.whiteness == self.whiteness,
            r.blackness == self.blackness,
    {
        Hwb {
            hue: RgbHue(self.hue.0 + amount.0),
            whiteness: self.whiteness,
            blackness: self.blackness,
            standard: PhantomData,
        }
    }
}

impl<S, T> Hwb<S, T> where
    T: Zero + One + MinMax + Add<Output = T> + Div<Output = T> + PartialOrd + Copy,
 {
    /// Whiteness and blackness are each within `[0, 1]`, and add up to at
    /// most `1`.
    pub open spec fn is_valid_spec(self) -> bool {
        &&& within_spec(self.blackness, T::zero_spec(), T::one_spec())
        &&& within_spec(self.whiteness, T::zero_spec(), T::one_spec())
        &&& self.whiteness.add_spec(self.blackness).is_le(&T::one_spec())
    }

    /// Whiteness and blackness raised to at least `0`, then, where they add up
    /// to more than `1`, both divided by their sum.
    pub open spec fn clamp_spec(self) -> Self {
        let w = self.whiteness.max_spec(T::zero_spec());
        let b = self.blackness.max_spec(T::zero_spec());
        let sum = b.add_spec(w);
        if sum.is_gt(&T::one_spec()) {
            Hwb {
                hue: self.hue,
                whiteness: w.div_spec(sum),
                blackness: b.div_spec(sum),
                standard: PhantomData,
            }
        } else {
            Hwb { hue: self.hue, whiteness: w, blackness: b, standard: PhantomData }
        }
    }
}

impl<S, T> Limited for Hwb<S, T> where
    T: Zero + One + MinMax + Add<Output = T> + Div<Output = T> + PartialOrd + Copy,
 {
    open spec fn limited_req(&self) -> bool {
        let w = self.whiteness.max_spec(T::zero_spec());
        let b = self.blackness.max_spec(T::zero_spec());
        let sum = b.add_spec(w);
        &&& T::obeys_add_spec()
        &&& T::obeys_partial_cmp_spec()
        &&& self.whiteness.add_req(self.blackness)
        &&& b.add_req(w)
        &&& sum.is_gt(&T::one_spec()) ==> w.div_req(sum) && b.div_req(sum)
    }

    open spec fn obeys_limited_spec() -> bool {
        T::obeys_div_spec()
    }

    open spec fn valid_spec(&self) -> bool {
        self.is_valid_spec()
    }

    open spec fn clamped_spec(&self) -> Self {
        self.clamp_spec()
    }

    fn is_valid(&self) -> (r: bool)
        ensures
            r == self.is_valid_spec(),
    {
        self.blackness >= T::zero() && self.blackness <= T::one() && self.whiteness >= T::zero()
            && self.whiteness <= T::one() && self.whiteness + self.blackness <= T::one()
    }

    fn clamp(&self) -> (r: Self)
        ensures
            T::obeys_div_spec() ==> r == self.clamp_spec(),
    {
        let mut c = *self;
        c.clamp_self();
        c
    }

    fn clamp_self(&mut self)
        ensures
            T::obeys_div_spec() ==> *final(self) == old(self).clamp_spec(),
    {
        self.whiteness = self.whiteness.max(T::zero());
        self.blackness = self.blackness.max(T::zero());
        let sum = self.blackness + self.whiteness;
        if sum > T::one() {
            self.whiteness = self.whiteness / sum;
            self.blackness = self.blackness / sum;
        }
    }
}

/// Floor division by `s` of two parts of `s` gives at most `1` in all.
proof fn lemma_parts_div_sum(w: int, b: int, s: int)
    requires
        0 <= w,
        0 <= b,
        w + b == s,
        s > 0,
    ensures
        w / s + b / s <= 1,
        w / s <= 1,
        b / s <= 1,
{
    lemma_fundamental_div_mod(w, s);
    lemma_fundamental_div_mod(b, s);
    lemma_mod_bound(w, s);
    lemma_mod_bound(b, s);
    assert(s * (w / s) + s * (b / s) <= s);
    assert(s * (w / s + b / s) <= s * 1) by (nonlinear_arith)
        requires
            s * (w / s) + s * (b / s) <= s,
    ;
    assert(w / s + b / s <= 1) by (nonlinear_arith)
        requires
            s * (w / s + b / s) <= s * 1,
            s > 0,
    ;
    lemma_div_pos_is_pos(w, s);
    lemma_div_pos_is_pos(b, s);
}

/// With `u32` components, clamping gives a color whose whiteness and
/// blackness are within `[0, 1]` and add up to at most `1`, and a color that
/// is already within those limits is left as it is.
pub proof fn law_hwb_clamp_is_valid<S>(color: Hwb<S, u32>)
    requires
        color.limited_req(),
    ensures
        color.clamp_spec().is_valid_spec(),
        color.is_valid_spec() ==> color.clamp_spec() == color,
{
    let w = color.whiteness;
    let b = color.blackness;
    if b + w > 1 {
        lemma_parts_div_sum(w as int, b as int, (b + w) as int);
    }
}

impl<S, T> Shade for Hwb<S, T> where T: Add<Output = T> + Sub<Output = T> + Neg<Output = T> + Copy {
    type Scalar = T;

    open spec fn lighten_req(&self, amount: T) -> bool {
        self.whiteness.add_req(amount) && self.blackness.sub_req(amount)
    }

    open spec fn obeys_shade_spec() -> bool {
        T::obeys_add_spec() && T::obeys_sub_spec()
    }

    open spec fn lighten_spec(&self, amount: T) -> Self {
        Hwb {
            hue: self.hue,
            whiteness: self.whiteness.add_spec(amount),
            blackness: self.blackness.sub_spec(amount),
            standard: PhantomData,
        }
    }

    /// Add `amount` to the whiteness and take it from the blackness.
    fn lighten(&self, amount: T) -> (r: Self)
        ensures
            r.hue == self.hue,
            T::obeys_add_spec() ==> r.whiteness == self.whiteness.add_spec(amount),
            T::obeys_sub_spec() ==> r.blackness == self.blackness.sub_spec(amount),
    {
        Hwb {
            hue: self.hue,
            whiteness: self.whiteness + amount,
            blackness: self.blackness - amount,
            standard: PhantomData,
        }
    }
}

impl<S, T> Hwb<S, T> where T: One + Sub<Output = T> + Mul<Output = T> + Copy {
    /// The HWB color of an HSV color: whiteness `(1 - saturation) * value`,
    /// blackness `1 - value`, and the same hue.
    pub open spec fn from_hsv_spec(hsv: Hsv<S, T>) -> Self {
        Hwb {
            hue: hsv.hue,
            whiteness: T::one_spec().sub_spec(hsv.saturation).mul_spec(hsv.value),
            blackness: T::one_spec().sub_spec(hsv.value),
            standard: PhantomData,
        }
    }
}

impl<S, T> FromColorUnclamped<Hsv<S, T>> for Hwb<S, T> where
    T: One + Sub<Output = T> + Mul<Output = T> + Copy,
 {
    open spec fn from_color_unclamped_req(hsv: Hsv<S, T>) -> bool {
        &&& T::obeys_sub_spec()
        &&& T::one_spec().sub_req(hsv.saturation)
        &&& T::one_spec().sub_spec(hsv.saturation).mul_req(hsv.value)
        &&& T::one_spec().sub_req(hsv.value)
    }

    fn from_color_unclamped(hsv: Hsv<S, T>) -> (r: Self)
        ensures
            T::obeys_mul_spec() ==> r == Self::from_hsv_spec(hsv),
    {
        Hwb {
            hue: hsv.hue,
            whiteness: (T::one() - hsv.saturation) * hsv.value,
            blackness: T::one() - hsv.value,
            standard: PhantomData,
        }
    }
}

impl<S, T> From<Hwb<S, T>> for (RgbHue<T>, T, T) {
    /// The components of `color`.
    fn from(color: Hwb<S, T>) -> (r: (RgbHue<T>, T, T)) {
        color.into_components()
    }
}

impl<S, T> FromSpecImpl<Hwb<S, T>> for (RgbHue<T>, T, T) {
    open spec fn obeys_from_spec() -> bool {
        true
    }

    open spec fn from_spec(color: Hwb<S, T>) -> (RgbHue<T>, T, T) {
        (color.hue, color.whiteness, color.blackness)
    }
}

impl<S, T, A> From<Alpha<Hwb<S, T>, A>> for (RgbHue<T>, T, T, A) {
    /// The components and the alpha of `color`.
    fn from(color: Alpha<Hwb<S, T>, A>) -> (r: (RgbHue<T>, T, T, A)) {
        color.into_components()
    }
}

impl<S, T, A> FromSpecImpl<Alpha<Hwb<S, T>, A>> for (RgbHue<T>, T, T, A) {
    open spec fn obeys_from_spec() -> bool {
        true
    }

    open spec fn from_spec(color: Alpha<Hwb<S, T>, A>) -> (RgbHue<T>, T, T, A) {
        (color.color.hue, color.color.whiteness, color.color.blackness, color.alpha)
    }
}

impl<S, T, HH: Into<RgbHue<T>>> From<(HH, T, T)> for Hwb<S, T> {
    /// The color made of `components`, with the hue converted.
    fn from(components: (HH, T, T)) -> (r: Self) {
        Hwb {
            hue: components.0.into(),
            whiteness: components.1,
            blackness: components.2,
            standard: PhantomData,
        }
    }
}

impl<S, T, HH: Into<RgbHue<T>>> FromSpecImpl<(HH, T, T)> for Hwb<S, T> {
    open spec fn obeys_from_spec() -> bool {
        <HH as IntoSpec<RgbHue<T>>>::obeys_into_spec()
    }

    open spec fn from_spec(components: (HH, T, T)) -> Self {
        Hwb {
            hue: components.0.into_spec(),
            whiteness: components.1,
            blackness: components.2,
            standard: PhantomData,
        }
    }
}

impl<S, T, HH: Into<RgbHue<T>>, A> From<(HH, T, T, A)> for Alpha<Hwb<S, T>, A> {
    /// The color made of `components`, with the hue converted and the last
    /// one as alpha.
    fn from(components: (HH, T, T, A)) -> (r: Self) {
        Alpha {
            color: Hwb {
                hue: components.0.into(),
                whiteness: components.1,
                blackness: components.2,
                standard: PhantomData,
            },
            alpha: components.3,
        }
    }
}

impl<S, T, HH: Into<RgbHue<T>>, A> FromSpecImpl<(HH, T, T, A)> for Alpha<Hwb<S, T>, A> {
    open spec fn obeys_from_spec() -> bool {
        <HH as IntoSpec<RgbHue<T>>>::obeys_into_spec()
    }

    open spec fn from_spec(components: (HH, T, T, A)) -> Self {
        Alpha {
            color: Hwb {
                hue: components.0.into_spec(),
                whiteness: components.1,
                blackness: components.2,
                standard: PhantomData,
            },
            alpha: components.3,
        }
    }
}

impl<S, T> Default for Hwb<S, T> where T: Zero + One {
    /// Black: zero hue and whiteness, full blackness.
    fn default() -> (r: Self)
        ensures
            r == Self::from_components_spec(
                (RgbHue(T::zero_spec()), T::zero_spec(), T::one_spec()),
            ),
    {
        Hwb::with_wp(RgbHue::from(T::zero()), T::zero(), T::one())
    }
}

impl<S, T> Mix for Hwb<S, T> where T: Arithmetics + PartialOrd + From<i16> + Copy {
    type Scalar = T;

    open spec fn mix_req(&self, other: &Self, factor: T) -> bool {
        let f = unit_factor_spec(factor);
        &&& angle_arithmetic::<T>()
        &&& hue_lerp_req(self.hue.0, other.hue.0, f)
        &&& lerp_req(self.whiteness, other.whiteness, f)
        &&& lerp_req(self.blackness, other.blackness, f)
    }

    open spec fn mix_spec(&self, other: &Self, factor: T) -> Self {
        let f = unit_factor_spec(factor);
        Hwb {
            hue: RgbHue(hue_lerp_spec(self.hue.0, other.hue.0, f)),
            whiteness: lerp_spec(self.whiteness, other.whiteness, f),
            blackness: lerp_spec(self.blackness, other.blackness, f),
            standard: PhantomData,
        }
    }

    /// Clamps `factor` to `[0, 1]`, turns the hue by that fraction of the
    /// shortest turn towards the hue of `other`, and moves the other
    /// components by that fraction of the way to those of `other`.
    fn mix(&self, other: &Self, factor: T) -> (r: Self)
        ensures
            r.hue.0 == hue_lerp_spec(self.hue.0, other.hue.0, unit_factor_spec(factor)),
            r.whiteness == lerp_spec(self.whiteness, other.whiteness, unit_factor_spec(factor)),
            r.blackness == lerp_spec(self.blackness, other.blackness, unit_factor_spec(factor)),
    {
        let factor = clamp(factor, T::from(0i16), T::from(1i16));
        let hue_diff = (other.hue.0 - self.hue.0).normalize_signed_angle();
        Hwb {
            hue: RgbHue(self.hue.0 + factor * hue_diff),
            whiteness: self.whiteness + factor * (other.whiteness - self.whiteness),
            blackness: self.blackness + factor * (other.blackness - self.blackness),
            standard: PhantomData,
        }
    }
}

/// With `i32` components, mixing by `0` gives the first color, and mixing by
/// `1` gives the whiteness and blackness of the second color and a hue in the
/// direction of its hue.
pub proof fn law_hwb_mix_ends<S>(a: Hwb<S, i32>, b: Hwb<S, i32>)
    requires
        a.mix_req(&b, 0i32),
        a.mix_req(&b, 1i32),
    ensures
        a.mix_spec(&b, 0i32) == a,
        (a.mix_spec(&b, 1i32).hue.0 - b.hue.0) % 360 == 0,
        lerp_spec(a.whiteness, b.whiteness, unit_factor_spec(1i32)) == b.whiteness,
        lerp_spec(a.blackness, b.blackness, unit_factor_spec(1i32)) == b.blackness,
{
    law_hue_lerp_ends_i32(a.hue.0, b.hue.0);
    law_lerp_ends_i32(a.whiteness, b.whiteness);
    law_lerp_ends_i32(a.blackness, b.blackness);
}

/// Building a transparent HWB color from the components that
/// `into_components` gives back returns the color it started from: the hue
/// passes unchanged through its conversion into itself.
pub proof fn law_hwba_components_round_trip<S, T, A>(color: Alpha<Hwb<S, T>, A>, r: Alpha<Hwb<S, T>, A>)
    requires
        call_ensures(
            Alpha::<Hwb<S, T>, A>::from_components::<RgbHue<T>>,
            ((color.color.hue, color.color.whiteness, color.color.blackness, color.alpha),),
            r,
        ),
    ensures
        r == color,
{
    assert(call_ensures(RgbHue::<T>::from, (color.color.hue,), r.color.hue));
}

/// `from_components` with a hue of any type that converts into `RgbHue`
/// builds the same transparent color as `with_wp` with the same hue,
/// whiteness, blackness and alpha: both keep whiteness, blackness and alpha
/// as given and take a hue that the conversion gives for `hue`, so the two
/// are equal wherever that conversion has one result for `hue`.
pub proof fn law_hwba_from_components_is_with_wp<S, T, A, H: Into<RgbHue<T>>>(
    hue: H,
    whiteness: T,
    blackness: T,
    alpha: A,
    r1: Alpha<Hwb<S, T>, A>,
    r2: Alpha<Hwb<S, T>, A>,
)
    requires
        call_ensures(
            Alpha::<Hwb<S, T>, A>::from_components::<H>,
            ((hue, whiteness, blackness, alpha),),
            r1,
        ),
        call_ensures(Alpha::<Hwb<S, T>, A>::with_wp::<H>, (hue, whiteness, blackness, alpha), r2),
    ensures
        r1.color.whiteness == whiteness && r2.color.whiteness == whiteness,
        r1.color.blackness == blackness && r2.color.blackness == blackness,
        r1.alpha == alpha && r2.alpha == alpha,
        call_ensures(<H as Into<RgbHue<T>>>::into, (hue,), r1.color.hue),
        call_ensures(<H as Into<RgbHue<T>>>::into, (hue,), r2.color.hue),
        (forall|x: RgbHue<T>, y: RgbHue<T>|
            call_ensures(<H as Into<RgbHue<T>>>::into, (hue,), x) && call_ensures(
                <H as Into<RgbHue<T>>>::into,
                (hue,),
                y,
            ) ==> x == y) ==> r1 == r2,
{
}

/// `from_components` and `into_components` are inverse to each other.
pub proof fn law_hwb_components_round_trip<S, T>(color: Hwb<S, T>, components: (RgbHue<T>, T, T))
    ensures
        Hwb::<S, T>::from_components_spec(color.components_spec()) == color,
        Hwb::<S, T>::from_components_spec(components).components_spec() == components,
{
}

/// The arithmetic operators (Add, Sub) act on each component on its own:
/// combining two colors combines each component of `a` with the matching
/// component of `b`, and combining a color with a number `c` combines each
/// component with `c`, by the component type's own operator.
pub proof fn law_hwb_arithmetic_is_componentwise<S, T>(
    a: Hwb<S, T>,
    b: Hwb<S, T>,
    c: T,
    add_color: Hwb<S, T>,
    add_scalar: Hwb<S, T>,
    sub_color: Hwb<S, T>,
    sub_scalar: Hwb<S, T>,
)
    where
        T: Add<Output = T> + Sub<Output = T> + Copy,
    requires
        T::obeys_add_spec(),
        T::obeys_sub_spec(),
        call_ensures(<Hwb<S, T> as Add<Hwb<S, T>>>::add, (a, b), add_color),
        call_ensures(<Hwb<S, T> as Add<T>>::add, (a, c), add_scalar),
        call_ensures(<Hwb<S, T> as Sub<Hwb<S, T>>>::sub, (a, b), sub_color),
        call_ensures(<Hwb<S, T> as Sub<T>>::sub, (a, c), sub_scalar),
    ensures
        add_color.hue.0 == a.hue.0.add_spec(b.hue.0),
        add_color.whiteness == a.whiteness.add_spec(b.whiteness),
        add_color.blackness == a.blackness.add_spec(b.blackness),
        add_scalar.hue.0 == a.hue.0.add_spec(c),
        add_scalar.whiteness == a.whiteness.add_spec(c),
        add_scalar.blackness == a.blackness.add_spec(c),
        sub_color.hue.0 == a.hue.0.sub_spec(b.hue.0),
        sub_color.whiteness == a.whiteness.sub_spec(b.whiteness),
        sub_color.blackness == a.blackness.sub_spec(b.blackness),
        sub_scalar.hue.0 == a.hue.0.sub_spec(c),
        sub_scalar.whiteness == a.whiteness.sub_spec(c),
        sub_scalar.blackness == a.blackness.sub_spec(c),
{
}

/// Converting an HSV color to HWB keeps the hue, takes the whiteness
/// `(1 - saturation) * value` and the blackness `1 - value`, by the component
/// type's own operators.
pub proof fn law_hwb_from_hsv<S, T>(hsv: Hsv<S, T>, r: Hwb<S, T>)
    where
        T: One + Sub<Output = T> + Mul<Output = T> + Copy,
    requires
        T::obeys_mul_spec(),
        call_ensures(<Hwb<S, T> as FromColorUnclamped<Hsv<S, T>>>::from_color_unclamped, (hsv,), r),
    ensures
        r.hue == hsv.hue,
        r.whiteness == T::one_spec().sub_spec(hsv.saturation).mul_spec(hsv.value),
        r.blackness == T::one_spec().sub_spec(hsv.value),
{
}

/// An HWB color is valid exactly when whiteness and blackness are each within
/// `[0, 1]` and add up to at most `1`. Clamping keeps the hue and raises
/// whiteness and blackness to at least `0` (by `max` with `0`); where the
/// raised values add up to more than `1`, both are divided by that sum, and
/// otherwise they are the result.
pub proof fn law_hwb_clamp<S, T>(c: Hwb<S, T>)
    where
        T: Zero + One + MinMax + Add<Output = T> + Div<Output = T> + PartialOrd + Copy,
    ensures
        c.valid_spec() <==> (c.whiteness.is_ge(&T::zero_spec()) && c.whiteness.is_le(
            &T::one_spec(),
        ) && c.blackness.is_ge(&T::zero_spec()) && c.blackness.is_le(&T::one_spec())
            && c.whiteness.add_spec(c.blackness).is_le(&T::one_spec())),
        c.clamped_spec().hue == c.hue,
        ({
            let w = c.whiteness.max_spec(T::zero_spec());
            let b = c.blackness.max_spec(T::zero_spec());
            &&& !b.add_spec(w).is_gt(&T::one_spec()) ==> c.clamped_spec().whiteness == w
                && c.clamped_spec().blackness == b
            &&& b.add_spec(w).is_gt(&T::one_spec()) ==> c.clamped_spec().whiteness == w.div_spec(
                b.add_spec(w),
            ) && c.clamped_spec().blackness == b.div_spec(b.add_spec(w))
        }),
{
}

/// Lightening an HWB color by `amount` keeps the hue, adds `amount` to the
/// whiteness and takes it from the blackness, by the component type's own
/// operators.
pub proof fn law_hwb_lighten<S, T>(
    c: Hwb<S, T>,
    amount: T,
    lighter: Hwb<S, T>,
)
    where
        T: Add<Output = T> + Sub<Output = T> + Neg<Output = T> + Copy,
    requires
        T::obeys_add_spec(),
        T::obeys_sub_spec(),
        call_ensures(<Hwb<S, T> as Shade>::lighten, (&c, amount), lighter),
    ensures
        lighter.hue == c.hue,
        lighter.whiteness == c.whiteness.add_spec(amount),
        lighter.blackness == c.blackness.sub_spec(amount),
{
}

/// `get_hue` gives the hue, or `None` where the color has no well defined
/// hue.
pub proof fn law_hwb_get_hue<S, T>(c: Hwb<S, T>, r: Option<RgbHue<T>>)
    where
        T: One + Add<Output = T> + PartialOrd + Copy,
    requires
        T::obeys_partial_cmp_spec(),
        T::obeys_add_spec(),
        call_ensures(Hwb::<S, T>::get_hue, (&c,), r),
    ensures
        r == {
            (if c.whiteness.add_spec(
                c.blackness,
            ).is_ge(&T::one_spec()) {
                None
            } else {
                Some(c.hue)
            })
        },
{
}

/// Building a color from a tuple of components puts each component in its
/// own place, and `into_components` gives the components back in the same
/// order.
pub proof fn law_hwb_components_in_place<S, T>(
    components: (RgbHue<T>, T, T),
    built: Hwb<S, T>,
    color: Hwb<S, T>,
    parts: (RgbHue<T>, T, T),
)
    requires
        call_ensures(Hwb::<S, T>::from_components::<RgbHue<T>>, (components,), built),
        call_ensures(Hwb::<S, T>::into_components, (color,), parts),
    ensures
        built.hue == components.0,
        built.whiteness == components.1,
        built.blackness == components.2,
        parts == (color.hue, color.whiteness, color.blackness),
{
    assert(call_ensures(RgbHue::<T>::from, (components.0,), built.hue));
}

} // verus!
