//! A Hue/Whiteness/Blackness representation of Oklab in the `sRGB` color space,

use crate::alpha::Alpha;
use crate::component::{Component};
use crate::hues::OklabHue;
use core::ops::{Add, Div, Mul, Sub};
use crate::{GetHue, Hue};
use crate::num::One;
use crate::{clamp_min, clamp_min_spec, within_spec, Limited};
use vstd::std_specs::cmp::{OrdSpec, PartialOrdIs, PartialOrdSpec};
use vstd::std_specs::ops::{DivSpec};
use crate::convert::FromColorUnclamped;
use crate::okhsv::Okhsv;
use vstd::std_specs::ops::MulSpec;
use vstd::pervasive::cloned;
use vstd::std_specs::convert::IntoSpec;
use vstd::std_specs::cmp::{PartialEqSpec, PartialEqSpecImpl};
use crate::angle::AngleEq;
use vstd::prelude::*;
use vstd::std_specs::ops::{AddSpec, AddSpecImpl, SubSpec, SubSpecImpl};

verus! {

/// A Hue/Whiteness/Blackness representation of Oklab in the `sRGB` color space,
/// similar to HWB.
pub struct Okhwb<T> {
    /// The hue of the color, in degrees of a circle.
    pub hue: OklabHue<T>,

    /// The amount of white, mixed in the pure hue, ranging from `0.0` to `1.0`.
    pub whiteness: T,

    /// The amount of black, mixed in the pure hue, ranging from `0.0` to `1.0`.
    pub blackness: T,
}

impl<T> Copy for Okhwb<T> where T: Copy {

}

impl<T> Clone for Okhwb<T> where T: Clone {
    fn clone(&self) -> (r: Okhwb<T>)
        ensures
            cloned(self.hue, r.hue),
            cloned(self.whiteness, r.whiteness),
            cloned(self.blackness, r.blackness),
    {
        Okhwb {
            hue: self.hue.clone(),
            whiteness: self.whiteness.clone(),
            blackness: self.blackness.clone(),
        }
    }
}

/// Okhwb with an alpha component.
pub type Okhwba<T> = Alpha<Okhwb<T>, T>;

impl<T> Okhwb<T> {
    /// The components of `self`, in the order that `into_components` returns them.
    pub open spec fn components_spec(self) -> (OklabHue<T>, T, T) {
        (self.hue, self.whiteness, self.blackness)
    }

    /// The color made of `components`.
    pub open spec fn from_components_spec(components: (OklabHue<T>, T, T)) -> Self {
        Okhwb { hue: components.0, whiteness: components.1, blackness: components.2 }
    }
}

impl<T> Okhwb<T> {
    /// Create an `Okhwb` color.
    pub fn new<H: Into<OklabHue<T>>>(hue: H, whiteness: T, blackness: T) -> (r: Self)
        ensures
            call_ensures(<H as Into<OklabHue<T>>>::into, (hue,), r.hue),
            <H as IntoSpec<OklabHue<T>>>::obeys_into_spec() ==> r.hue == hue.into_spec(),
            r == Self::from_components_spec((r.hue, whiteness, blackness)),
    {
        Okhwb { hue: hue.into(), whiteness, blackness }
    }

    /// Create an `Okhwb` color, without the generic hue type.
    pub fn new_const(hue: OklabHue<T>, whiteness: T, blackness: T) -> (r: Self)
        ensures
            r == Self::from_components_spec((hue, whiteness, blackness)),
    {
        Okhwb { hue, whiteness, blackness }
    }

    /// Convert to a `(hue, whiteness, blackness)` tuple.
    pub fn into_components(self) -> (r: (OklabHue<T>, T, T))
        ensures
            r == self.components_spec(),
    {
        (self.hue, self.whiteness, self.blackness)
    }

    /// Convert from a `(hue, whiteness, blackness)` tuple.
    pub fn from_components<H: Into<OklabHue<T>>>(components: (H, T, T)) -> (r: Self)
        ensures
            call_ensures(<H as Into<OklabHue<T>>>::into, (components.0,), r.hue),
            <H as IntoSpec<OklabHue<T>>>::obeys_into_spec() ==> r.hue == components.0.into_spec(),
            r == Self::from_components_spec((r.hue, components.1, components.2)),
    {
        let (hue, whiteness, blackness) = components;
        Okhwb { hue: hue.into(), whiteness, blackness }
    }
}

impl<T> Okhwb<T> where T: Component {
    /// Return the `whiteness` value minimum.
    pub fn min_whiteness() -> (r: T)
        ensures
            r == T::zero_spec(),
    {
        T::zero()
    }

    /// Return the `whiteness` value maximum.
    pub fn max_whiteness() -> (r: T)
        ensures
            r == T::max_intensity_spec(),
    {
        T::max_intensity()
    }

    /// Return the `blackness` value minimum.
    pub fn min_blackness() -> (r: T)
        ensures
            r == T::zero_spec(),
    {
        T::zero()
    }

    /// Return the `blackness` value maximum.
    pub fn max_blackness() -> (r: T)
        ensures
            r == T::max_intensity_spec(),
    {
        T::max_intensity()
    }
}

impl<T> Add<Self> for Okhwb<T> where T: Add<Output = T> {
    type Output = Self;

    /// Add each component of `other` to the matching component.
    fn add(self, other: Self) -> (r: Self) {
        Okhwb {
            hue: OklabHue(self.hue.0 + other.hue.0),
            whiteness: self.whiteness + other.whiteness,
            blackness: self.blackness + other.blackness,
        }
    }
}

impl<T> AddSpecImpl<Self> for Okhwb<T> where T: Add<Output = T> {
    open spec fn obeys_add_spec() -> bool {
        T::obeys_add_spec()
    }

    open spec fn add_req(self, rhs: Self) -> bool {
        self.hue.0.add_req(rhs.hue.0)
        && self.whiteness.add_req(rhs.whiteness)
        && self.blackness.add_req(rhs.blackness)
    }

    open spec fn add_spec(self, rhs: Self) -> Self {
        Okhwb {
            hue: OklabHue(self.hue.0.add_spec(rhs.hue.0)),
            whiteness: self.whiteness.add_spec(rhs.whiteness),
            blackness: self.blackness.add_spec(rhs.blackness),
        }
    }
}

impl<T> Add<T> for Okhwb<T> where T: Add<Output = T> + Copy {
    type Output = Self;

    /// Add `c` to each component.
    fn add(self, c: T) -> (r: Self) {
        Okhwb {
            hue: OklabHue(self.hue.0 + c),
            whiteness: self.whiteness + c,
            blackness: self.blackness + c,
        }
    }
}

impl<T> AddSpecImpl<T> for Okhwb<T> where T: Add<Output = T> + Copy {
    open spec fn obeys_add_spec() -> bool {
        T::obeys_add_spec()
    }

    open spec fn add_req(self, rhs: T) -> bool {
        self.hue.0.add_req(rhs)
        && self.whiteness.add_req(rhs)
        && self.blackness.add_req(rhs)
    }

    open spec fn add_spec(self, rhs: T) -> Self {
        Okhwb {
            hue: OklabHue(self.hue.0.add_spec(rhs)),
            whiteness: self.whiteness.add_spec(rhs),
            blackness: self.blackness.add_spec(rhs),
        }
    }
}

impl<T> Sub<Self> for Okhwb<T> where T: Sub<Output = T> {
    type Output = Self;

    /// Subtract each component of `other` from the matching component.
    fn sub(self, other: Self) -> (r: Self) {
        Okhwb {
            hue: OklabHue(self.hue.0 - other.hue.0),
            whiteness: self.whiteness - other.whiteness,
            blackness: self.blackness - other.blackness,
        }
    }
}

impl<T> SubSpecImpl<Self> for Okhwb<T> where T: Sub<Output = T> {
    open spec fn obeys_sub_spec() -> bool {
        T::obeys_sub_spec()
    }

    open spec fn sub_req(self, rhs: Self) -> bool {
        self.hue.0.sub_req(rhs.hue.0)
        && self.whiteness.sub_req(rhs.whiteness)
        && self.blackness.sub_req(rhs.blackness)
    }

    open spec fn sub_spec(self, rhs: Self) -> Self {
        Okhwb {
            hue: OklabHue(self.hue.0.sub_spec(rhs.hue.0)),
            whiteness: self.whiteness.sub_spec(rhs.whiteness),
            blackness: self.blackness.sub_spec(rhs.blackness),
        }
    }
}

impl<T> Sub<T> for Okhwb<T> where T: Sub<Output = T> + Copy {
    type Output = Self;

    /// Subtract `c` from each component.
    fn sub(self, c: T) -> (r: Self) {
        Okhwb {
            hue: OklabHue(self.hue.0 - c),
            whiteness: self.whiteness - c,
            blackness: self.blackness - c,
        }
    }
}

impl<T> SubSpecImpl<T> for Okhwb<T> where T: Sub<Output = T> + Copy {
    open spec fn obeys_sub_spec() -> bool {
        T::obeys_sub_spec()
    }

    open spec fn sub_req(self, rhs: T) -> bool {
        self.hue.0.sub_req(rhs)
        && self.whiteness.sub_req(rhs)
        && self.blackness.sub_req(rhs)
    }

    open spec fn sub_spec(self, rhs: T) -> Self {
        Okhwb {
            hue: OklabHue(self.hue.0.sub_spec(rhs)),
            whiteness: self.whiteness.sub_spec(rhs),
            blackness: self.blackness.sub_spec(rhs),
        }
    }
}

impl<T> GetHue for Okhwb<T> where T: Copy {
    type Hue = OklabHue<T>;

    open spec fn get_hue_req(&self) -> bool {
        true
    }

    open spec fn obeys_get_hue_spec() -> bool {
        true
    }

    open spec fn get_hue_spec(&self) -> Option<OklabHue<T>> {
        Some(self.hue)
    }

    /// The hue, which this color always has.
    fn get_hue(&self) -> (r: Option<OklabHue<T>>)
    {
        Some(self.hue)
    }
}

impl<T> Hue for Okhwb<T> where T: Copy + Add<Output = T> {
    open spec fn shift_hue_req(&self, amount: OklabHue<T>) -> bool {
        self.hue.0.add_req(amount.0)
    }

    open spec fn with_hue_spec(&self, hue: OklabHue<T>) -> Self {
        Okhwb {
            hue,
            whiteness: self.whiteness,
            blackness: self.blackness,
        }
    }

    open spec fn obeys_shift_hue_spec() -> bool {
        T::obeys_add_spec()
    }

    open spec fn shift_hue_spec(&self, amount: OklabHue<T>) -> Self {
        Okhwb {
            hue: OklabHue(self.hue.0.add_spec(amount.0)),
            whiteness: self.whiteness,
            blackness: self.blackness,
        }
    }

    fn with_hue<H: Into<OklabHue<T>>>(&self, hue: H) -> (r: Self)
        ensures
            call_ensures(<H as Into<OklabHue<T>>>::into, (hue,), r.hue),
            <H as IntoSpec<OklabHue<T>>>::obeys_into_spec() ==> r.hue == hue.into_spec(),
            r.whiteness == self.whiteness,
            r.blackness == self.blackness,
    {
        Okhwb {
            hue: hue.into(),
            whiteness: self.whiteness,
            blackness: self.blackness,
        }
    }

    fn shift_hue(&self, amount: OklabHue<T>) -> (r: Self)
        ensures
            T::obeys_add_spec() ==> r.hue.0 == self.hue.0.add_spec(amount.0),
            r.whiteness == self.whiteness,
            r.blackness == self.blackness,
    {
        Okhwb {
            hue: OklabHue(self.hue.0 + amount.0),
            whiteness: self.whiteness,
            blackness: self.blackness,
        }
    }
}

impl<T> Okhwb<T> where T: Component + One + Add<Output = T> + Div<Output = T> {
    /// Whiteness and blackness are each within `[0, max_intensity]`, and add
    /// up to at most `max_intensity`.
    pub open spec fn is_valid_spec(self) -> bool {
        &&& within_spec(self.blackness, T::zero_spec(), T::max_intensity_spec())
        &&& within_spec(self.whiteness, T::zero_spec(), T::max_intensity_spec())
        &&& self.whiteness.add_spec(self.blackness).is_le(&T::max_intensity_spec())
    }

    /// What whiteness and blackness are divided by after being raised to at
    /// least `0`: the sum `total`, where it exceeds `max_intensity`, else `1`.
    pub open spec fn divisor_spec(total: T) -> T {
        if total.is_gt(&T::max_intensity_spec()) {
            total
        } else {
            T::one_spec()
        }
    }

    /// The color with whiteness and blackness raised to at least `0` and then
    /// both divided by `divisor_spec(total)`.
    pub open spec fn scaled_spec(self, total: T) -> Self {
        Okhwb {
            hue: self.hue,
            whiteness: clamp_min_spec(self.whiteness, T::zero_spec()).div_spec(
                Self::divisor_spec(total),
            ),
            blackness: clamp_min_spec(self.blackness, T::zero_spec()).div_spec(
                Self::divisor_spec(total),
            ),
        }
    }

    /// The sum of whiteness and blackness after raising each to at least `0`.
    pub open spec fn clamped_sum_spec(self) -> T {
        clamp_min_spec(self.blackness, T::zero_spec()).add_spec(
            clamp_min_spec(self.whiteness, T::zero_spec()),
        )
    }

    /// Whether the divisions by the chosen divisor can be done.
    pub open spec fn scaling_req(self, total: T) -> bool {
        &&& clamp_min_spec(self.whiteness, T::zero_spec()).div_req(Self::divisor_spec(total))
        &&& clamp_min_spec(self.blackness, T::zero_spec()).div_req(Self::divisor_spec(total))
    }
}

impl<T> Limited for Okhwb<T> where T: Component + One + Add<Output = T> + Div<Output = T> {
    open spec fn limited_req(&self) -> bool {
        &&& T::obeys_add_spec()
        &&& T::obeys_partial_cmp_spec()
        &&& self.whiteness.add_req(self.blackness)
        &&& clamp_min_spec(self.blackness, T::zero_spec()).add_req(
            clamp_min_spec(self.whiteness, T::zero_spec()),
        )
        &&& self.scaling_req(self.clamped_sum_spec())
    }

    open spec fn obeys_limited_spec() -> bool {
        T::obeys_div_spec()
    }

    open spec fn valid_spec(&self) -> bool {
        self.is_valid_spec()
    }

    open spec fn clamped_spec(&self) -> Self {
        self.scaled_spec(self.clamped_sum_spec())
    }

    fn is_valid(&self) -> (r: bool)
        ensures
            r == self.is_valid_spec(),
    {
        self.blackness >= Self::min_blackness() && self.blackness <= Self::max_blackness()
            && self.whiteness >= Self::min_whiteness() && self.whiteness
            <= Self::max_blackness() && self.whiteness + self.blackness <= T::max_intensity()
    }

    /// Raises whiteness and blackness to at least `0`, then divides both by
    /// their new sum where that exceeds `max_intensity`.
    fn clamp(&self) -> (r: Self)
        ensures
            T::obeys_div_spec() ==> r == self.scaled_spec(self.clamped_sum_spec()),
    {
        let whiteness = clamp_min(self.whiteness, Self::min_whiteness());
        let blackness = clamp_min(self.blackness, Self::min_blackness());
        let sum = blackness + whiteness;
        let divisor = if sum > T::max_intensity() {
            sum
        } else {
            T::one()
        };
        Okhwb { hue: self.hue, whiteness: whiteness / divisor, blackness: blackness / divisor }
    }

    /// Raises whiteness and blackness to at least `0`, then divides both by
    /// their new sum where that exceeds `max_intensity`.
    fn clamp_self(&mut self)
        ensures
            T::obeys_div_spec() ==> *final(self) == old(self).scaled_spec(
                old(self).clamped_sum_spec(),
            ),
    {
        self.whiteness = clamp_min(self.whiteness, Self::min_whiteness());
        self.blackness = clamp_min(self.blackness, Self::min_blackness());
        let sum = self.blackness + self.whiteness;
        let divisor = if sum > T::max_intensity() {
            sum
        } else {
            T::one()
        };
        self.whiteness = self.whiteness / divisor;
        self.blackness = self.blackness / divisor;
    }
}

/// With `u32` components, clamping gives a color whose whiteness and
/// blackness are within `[0, max_intensity]` and add up to at most
/// `max_intensity`, and a color that is already within those limits is left
/// as it is.
pub proof fn law_okhwb_clamp_is_valid(color: Okhwb<u32>)
    requires
        color.limited_req(),
    ensures
        color.scaled_spec(color.clamped_sum_spec()).is_valid_spec(),
        color.is_valid_spec() ==> color.scaled_spec(color.clamped_sum_spec()) == color,
{
}

impl<T> Okhwb<T> where T: One + Sub<Output = T> + Mul<Output = T> + Copy {
    /// The Okhwb color of an Okhsv color: whiteness
    /// `(1 - saturation) * value`, blackness `1 - value`, and the same hue.
    pub open spec fn from_okhsv_spec(hsv: Okhsv<T>) -> Self {
        Okhwb {
            hue: hsv.hue,
            whiteness: T::one_spec().sub_spec(hsv.saturation).mul_spec(hsv.value),
            blackness: T::one_spec().sub_spec(hsv.value),
        }
    }
}

impl<T> FromColorUnclamped<Okhsv<T>> for Okhwb<T> where
    T: One + Sub<Output = T> + Mul<Output = T> + Copy,
 {
    open spec fn from_color_unclamped_req(hsv: Okhsv<T>) -> bool {
        &&& T::obeys_sub_spec()
        &&& T::one_spec().sub_req(hsv.saturation)
        &&& T::one_spec().sub_spec(hsv.saturation).mul_req(hsv.value)
        &&& T::one_spec().sub_req(hsv.value)
    }

    /// Converts an Okhsv color to Okhwb.
    fn from_color_unclamped(hsv: Okhsv<T>) -> (r: Self)
        ensures
            T::obeys_mul_spec() ==> r == Self::from_okhsv_spec(hsv),
    {
        Okhwb {
            hue: hsv.hue,
            whiteness: (T::one() - hsv.saturation) * hsv.value,
            blackness: T::one() - hsv.value,
        }
    }
}

/// `from_components` and `into_components` are inverse to each other.
pub proof fn law_okhwb_components_round_trip<T>(color: Okhwb<T>, components: (OklabHue<T>, T, T))
    ensures
        Okhwb::<T>::from_components_spec(color.components_spec()) == color,
        Okhwb::<T>::from_components_spec(components).components_spec() == components,
{
}

impl<T> PartialEq for Okhwb<T> where T: PartialEq + AngleEq {
    /// Compare the hues as directions and the other components one by one.
    fn eq(&self, other: &Self) -> (r: bool) {
        self.hue == other.hue && self.whiteness == other.whiteness && self.blackness == other.blackness
    }
}

impl<T> PartialEqSpecImpl for Okhwb<T> where T: PartialEq + AngleEq {
    open spec fn obeys_eq_spec() -> bool {
        T::obeys_eq_spec()
    }

    open spec fn eq_spec(&self, other: &Self) -> bool {
        self.hue.0.angle_eq_spec(&other.hue.0)
        && self.whiteness.eq_spec(&other.whiteness)
        && self.blackness.eq_spec(&other.blackness)
    }
}

/// The arithmetic operators (Add, Sub) act on each component on its own:
/// combining two colors combines each component of `a` with the matching
/// component of `b`, and combining a color with a number `c` combines each
/// component with `c`, by the component type's own operator.
pub proof fn law_okhwb_arithmetic_is_componentwise<T>(
    a: Okhwb<T>,
    b: Okhwb<T>,
    c: T,
    add_color: Okhwb<T>,
    add_scalar: Okhwb<T>,
    sub_color: Okhwb<T>,
    sub_scalar: Okhwb<T>,
)
    where
        T: Add<Output = T> + Sub<Output = T> + Copy,
    requires
        T::obeys_add_spec(),
        T::obeys_sub_spec(),
        call_ensures(<Okhwb<T> as Add<Okhwb<T>>>::add, (a, b), add_color),
        call_ensures(<Okhwb<T> as Add<T>>::add, (a, c), add_scalar),
        call_ensures(<Okhwb<T> as Sub<Okhwb<T>>>::sub, (a, b), sub_color),
        call_ensures(<Okhwb<T> as Sub<T>>::sub, (a, c), sub_scalar),
    ensures
        add_color.hue.0 == a.hue.0.add_spec(b.hue.0),
        add_color.whiteness == a.whiteness.add_spec(b.whiteness),
        add_color.blackness == a.blackness.add_spec(b.blackness),
        add_scalar.hue.0 == a.hue.0.add_spec(c),
        add_scalar.whiteness == a.whiteness.add_spec(c),
        add_scalar.blackness == a.blackness.add_spec(c),
        sub_color.hue.0 == a.hue.0.sub_spec(b.hue.0),
        sub_color.whiteness == a.whiteness.sub_spec(b.whiteness),
        sub_color.blackness == a.blackness.sub_spec(b.blackness),
        sub_scalar.hue.0 == a.hue.0.sub_spec(c),
        sub_scalar.whiteness == a.whiteness.sub_spec(c),
        sub_scalar.blackness == a.blackness.sub_spec(c),
{
}

/// With `i32` components, two colors compare equal with `==` exactly when
/// their other components are equal and their hue angles differ by whole
/// turns.
pub proof fn law_okhwb_eq_i32(a: Okhwb<i32>, b: Okhwb<i32>, r: bool)
    requires
        call_ensures(<Okhwb<i32> as PartialEq<Okhwb<i32>>>::eq, (&a, &b), r),
    ensures
        r <==> (a.whiteness == b.whiteness && a.blackness == b.blackness && (a.hue.0 - b.hue.0) % 360 == 0),
{
}

/// With `i64` components, two colors compare equal with `==` exactly when
/// their other components are equal and their hue angles differ by whole
/// turns.
pub proof fn law_okhwb_eq_i64(a: Okhwb<i64>, b: Okhwb<i64>, r: bool)
    requires
        call_ensures(<Okhwb<i64> as PartialEq<Okhwb<i64>>>::eq, (&a, &b), r),
    ensures
        r <==> (a.whiteness == b.whiteness && a.blackness == b.blackness && (a.hue.0 - b.hue.0) % 360 == 0),
{
}

/// Converting an Okhsv color to Okhwb keeps the hue, takes the whiteness
/// `(1 - saturation) * value` and the blackness `1 - value`, by the component
/// type's own operators.
pub proof fn law_okhwb_from_okhsv<T>(hsv: Okhsv<T>, r: Okhwb<T>)
    where
        T: One + Sub<Output = T> + Mul<Output = T> + Copy,
    requires
        T::obeys_mul_spec(),
        call_ensures(<Okhwb<T> as FromColorUnclamped<Okhsv<T>>>::from_color_unclamped, (hsv,), r),
    ensures
        r.hue == hsv.hue,
        r.whiteness == T::one_spec().sub_spec(hsv.saturation).mul_spec(hsv.value),
        r.blackness == T::one_spec().sub_spec(hsv.value),
{
}

/// An Okhwb color is valid exactly when whiteness and blackness are each
/// within `[0, max_intensity]` and add up to at most `max_intensity`, and
/// `is_valid` answers exactly that.
pub proof fn law_okhwb_is_valid<T>(c: Okhwb<T>, r: bool)
    where
        T: Component + One + Add<Output = T> + Div<Output = T>,
    requires
        call_ensures(<Okhwb<T> as Limited>::is_valid, (&c,), r),
    ensures
        r == c.valid_spec(),
        r <==> (c.whiteness.is_ge(&T::zero_spec()) && c.blackness.is_ge(&T::zero_spec())
            && c.whiteness.is_le(&T::max_intensity_spec()) && c.blackness.is_le(
            &T::max_intensity_spec(),
        ) && c.whiteness.add_spec(c.blackness).is_le(&T::max_intensity_spec())),
{
}

/// Clamping an Okhwb color (`clamp` and `clamp_self` both give
/// `clamped_spec`) keeps the hue and raises negative whiteness and blackness
/// to `0`. Where the raised values add up to at most `max_intensity`, they
/// are the result, so it has no negative component and its sum is at most
/// `max_intensity`; where they add up to more, both are divided by that sum.
/// A valid color is left as it is. This holds for every totally ordered
/// component type whose addition is commutative and whose division by `1`
/// leaves a value as it is.
pub proof fn law_okhwb_clamp<T>(c: Okhwb<T>)
    where
        T: Component + One + Add<Output = T> + Div<Output = T> + Ord,
    requires
        vstd::laws_cmp::obeys_cmp::<T>(),
        T::obeys_div_spec(),
        forall|x: T, y: T| #[trigger] x.add_spec(y) == y.add_spec(x),
        forall|x: T| #[trigger] x.div_spec(T::one_spec()) == x,
    ensures
        c.clamped_spec().hue == c.hue,
        clamp_min_spec(c.whiteness, T::zero_spec()).add_spec(
            clamp_min_spec(c.blackness, T::zero_spec()),
        ).is_le(&T::max_intensity_spec()) ==> {
            &&& c.clamped_spec().whiteness == clamp_min_spec(c.whiteness, T::zero_spec())
            &&& c.clamped_spec().blackness == clamp_min_spec(c.blackness, T::zero_spec())
            &&& c.clamped_spec().whiteness.is_ge(&T::zero_spec())
            &&& c.clamped_spec().blackness.is_ge(&T::zero_spec())
            &&& c.clamped_spec().whiteness.add_spec(c.clamped_spec().blackness).is_le(
                &T::max_intensity_spec(),
            )
        },
        clamp_min_spec(c.whiteness, T::zero_spec()).add_spec(
            clamp_min_spec(c.blackness, T::zero_spec()),
        ).is_gt(&T::max_intensity_spec()) ==> {
            let sum = clamp_min_spec(c.whiteness, T::zero_spec()).add_spec(
                clamp_min_spec(c.blackness, T::zero_spec()),
            );
            &&& c.clamped_spec().whiteness == clamp_min_spec(c.whiteness, T::zero_spec()).div_spec(
                sum,
            )
            &&& c.clamped_spec().blackness == clamp_min_spec(c.blackness, T::zero_spec()).div_spec(
                sum,
            )
        },
        c.valid_spec() ==> c.clamped_spec() == c,
{
    crate::law_clamp_min_at_least(c.whiteness, T::zero_spec());
    crate::law_clamp_min_at_least(c.blackness, T::zero_spec());
    reveal(vstd::laws_cmp::obeys_partial_cmp_spec_properties);
    reveal(vstd::laws_cmp::obeys_cmp_partial_ord);
    reveal(vstd::laws_cmp::obeys_cmp_ord);
    let w = clamp_min_spec(c.whiteness, T::zero_spec());
    let b = clamp_min_spec(c.blackness, T::zero_spec());
    assert(b.add_spec(w) == w.add_spec(b));
    let m = T::max_intensity_spec();
    assert(w.add_spec(b).partial_cmp_spec(&m) == Some(w.add_spec(b).cmp_spec(&m)));
}

/// `get_hue` gives the hue, or `None` where the color has no well defined
/// hue.
pub proof fn law_okhwb_get_hue<T>(c: Okhwb<T>, r: Option<OklabHue<T>>)
    where
        T: Copy,
    requires
        call_ensures(Okhwb::<T>::get_hue, (&c,), r),
    ensures
        r == {
            Some(c.hue)
        },
{
}

/// Building a color from a tuple of components puts each component in its
/// own place, and `into_components` gives the components back in the same
/// order.
pub proof fn law_okhwb_components_in_place<T>(
    components: (OklabHue<T>, T, T),
    built: Okhwb<T>,
    color: Okhwb<T>,
    parts: (OklabHue<T>, T, T),
)
    requires
        call_ensures(Okhwb::<T>::from_components::<OklabHue<T>>, (components,), built),
        call_ensures(Okhwb::<T>::into_components, (color,), parts),
    ensures
        built.hue == components.0,
        built.whiteness == components.1,
        built.blackness == components.2,
        parts == (color.hue, color.whiteness, color.blackness),
{
    assert(call_ensures(OklabHue::<T>::from, (components.0,), built.hue));
}

} // verus!
