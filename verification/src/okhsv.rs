//! A Hue/Saturation/Value representation of Oklab in the `sRGB` color space.

use crate::alpha::Alpha;
use crate::component::{Component};
use crate::hues::OklabHue;
use core::ops::{Add, Div, Sub};
use crate::{GetHue, Hue};
use crate::convert::FromColorUnclamped;
use crate::num::{One, Zero};
use crate::okhwb::Okhwb;
use vstd::std_specs::cmp::PartialEqSpec;
use vstd::std_specs::ops::DivSpec;
use vstd::arithmetic::div_mod::lemma_div_multiples_vanish;
use vstd::pervasive::cloned;
use vstd::std_specs::convert::{FromSpecImpl, IntoSpec};
use vstd::std_specs::cmp::PartialEqSpecImpl;
use crate::angle::AngleEq;
use vstd::prelude::*;
use vstd::std_specs::ops::{AddSpec, AddSpecImpl, SubSpec, SubSpecImpl};

verus! {

/// A Hue/Saturation/Value representation of Oklab in the `sRGB` color space.
///
/// It allows changing hue, chroma and saturation while keeping the perceived
/// lightness constant.
pub struct Okhsv<T> {
    /// The hue of the color, in degrees of a circle.
    pub hue: OklabHue<T>,

    /// The saturation (freedom of whitishness) of the color. 0.0 gives a gray
    /// scale color and 1.0 the most colorful color of the given value and hue.
    pub saturation: T,

    /// The monochromatic brightness of the color. 0.0 gives absolute black and
    /// 1.0 gives the brightest color of the given hue and saturation.
    pub value: T,
}

impl<T> Copy for Okhsv<T> where T: Copy {

}

impl<T> Clone for Okhsv<T> where T: Clone {
    fn clone(&self) -> (r: Okhsv<T>)
        ensures
            cloned(self.hue, r.hue),
            cloned(self.saturation, r.saturation),
            cloned(self.value, r.value),
    {
        Okhsv {
            hue: self.hue.clone(),
            saturation: self.saturation.clone(),
            value: self.value.clone(),
        }
    }
}

/// Okhsv with an alpha component.
pub type Okhsva<T> = Alpha<Okhsv<T>, T>;

impl<T> Okhsv<T> {
    /// The components of `self`, in the order that `into_components` returns them.
    pub open spec fn components_spec(self) -> (OklabHue<T>, T, T) {
        (self.hue, self.saturation, self.value)
    }

    /// The color made of `components`.
    pub open spec fn from_components_spec(components: (OklabHue<T>, T, T)) -> Self {
        Okhsv { hue: components.0, saturation: components.1, value: components.2 }
    }
}

impl<T> Okhsv<T> {
    /// Create an `Okhsv` color.
    pub fn new<H: Into<OklabHue<T>>>(hue: H, saturation: T, value: T) -> (r: Self)
        ensures
            call_ensures(<H as Into<OklabHue<T>>>::into, (hue,), r.hue),
            <H as IntoSpec<OklabHue<T>>>::obeys_into_spec() ==> r.hue == hue.into_spec(),
            r == Self::from_components_spec((r.hue, saturation, value)),
    {
        Okhsv { hue: hue.into(), saturation, value }
    }

    /// Create an `Okhsv` color, without the generic hue type.
    pub fn new_const(hue: OklabHue<T>, saturation: T, value: T) -> (r: Self)
        ensures
            r == Self::from_components_spec((hue, saturation, value)),
    {
        Okhsv { hue, saturation, value }
    }

    /// Convert to a `(hue, saturation, value)` tuple.
    pub fn into_components(self) -> (r: (OklabHue<T>, T, T))
        ensures
            r == self.components_spec(),
    {
        (self.hue, self.saturation, self.value)
    }

    /// Convert from a `(hue, saturation, value)` tuple.
    pub fn from_components<H: Into<OklabHue<T>>>(components: (H, T, T)) -> (r: Self)
        ensures
            call_ensures(<H as Into<OklabHue<T>>>::into, (components.0,), r.hue),
            <H as IntoSpec<OklabHue<T>>>::obeys_into_spec() ==> r.hue == components.0.into_spec(),
            r == Self::from_components_spec((r.hue, components.1, components.2)),
    {
        let (hue, saturation, value) = components;
        Okhsv { hue: hue.into(), saturation, value }
    }
}

impl<T> Okhsv<T> where T: Component {
    /// Return the `saturation` value minimum.
    pub fn min_saturation() -> (r: T)
        ensures
            r == T::zero_spec(),
    {
        T::zero()
    }

    /// Return the `saturation` value maximum.
    pub fn max_saturation() -> (r: T)
        ensures
            r == T::max_intensity_spec(),
    {
        T::max_intensity()
    }

    /// Return the `value` value minimum.
    pub fn min_value() -> (r: T)
        ensures
            r == T::zero_spec(),
    {
        T::zero()
    }

    /// Return the `value` value maximum.
    pub fn max_value() -> (r: T)
        ensures
            r == T::max_intensity_spec(),
    {
        T::max_intensity()
    }
}

impl<T> Add<Self> for Okhsv<T> where T: Add<Output = T> {
    type Output = Self;

    /// Add each component of `other` to the matching component.
    fn add(self, other: Self) -> (r: Self) {
        Okhsv {
            hue: OklabHue(self.hue.0 + other.hue.0),
            saturation: self.saturation + other.saturation,
            value: self.value + other.value,
        }
    }
}

impl<T> AddSpecImpl<Self> for Okhsv<T> where T: Add<Output = T> {
    open spec fn obeys_add_spec() -> bool {
        T::obeys_add_spec()
    }

    open spec fn add_req(self, rhs: Self) -> bool {
        self.hue.0.add_req(rhs.hue.0)
        && self.saturation.add_req(rhs.saturation)
        && self.value.add_req(rhs.value)
    }

    open spec fn add_spec(self, rhs: Self) -> Self {
        Okhsv {
            hue: OklabHue(self.hue.0.add_spec(rhs.hue.0)),
            saturation: self.saturation.add_spec(rhs.saturation),
            value: self.value.add_spec(rhs.value),
        }
    }
}

impl<T> Add<T> for Okhsv<T> where T: Add<Output = T> + Copy {
    type Output = Self;

    /// Add `c` to each component.
    fn add(self, c: T) -> (r: Self) {
        Okhsv {
            hue: OklabHue(self.hue.0 + c),
            saturation: self.saturation + c,
            value: self.value + c,
        }
    }
}

impl<T> AddSpecImpl<T> for Okhsv<T> where T: Add<Output = T> + Copy {
    open spec fn obeys_add_spec() -> bool {
        T::obeys_add_spec()
    }

    open spec fn add_req(self, rhs: T) -> bool {
        self.hue.0.add_req(rhs)
        && self.saturation.add_req(rhs)
        && self.value.add_req(rhs)
    }

    open spec fn add_spec(self, rhs: T) -> Self {
        Okhsv {
            hue: OklabHue(self.hue.0.add_spec(rhs)),
            saturation: self.saturation.add_spec(rhs),
            value: self.value.add_spec(rhs),
        }
    }
}

impl<T> Sub<Self> for Okhsv<T> where T: Sub<Output = T> {
    type Output = Self;

    /// Subtract each component of `other` from the matching component.
    fn sub(self, other: Self) -> (r: Self) {
        Okhsv {
            hue: OklabHue(self.hue.0 - other.hue.0),
            saturation: self.saturation - other.saturation,
            value: self.value - other.value,
        }
    }
}

impl<T> SubSpecImpl<Self> for Okhsv<T> where T: Sub<Output = T> {
    open spec fn obeys_sub_spec() -> bool {
        T::obeys_sub_spec()
    }

    open spec fn sub_req(self, rhs: Self) -> bool {
        self.hue.0.sub_req(rhs.hue.0)
        && self.saturation.sub_req(rhs.saturation)
        && self.value.sub_req(rhs.value)
    }

    open spec fn sub_spec(self, rhs: Self) -> Self {
        Okhsv {
            hue: OklabHue(self.hue.0.sub_spec(rhs.hue.0)),
            saturation: self.saturation.sub_spec(rhs.saturation),
            value: self.value.sub_spec(rhs.value),
        }
    }
}

impl<T> Sub<T> for Okhsv<T> where T: Sub<Output = T> + Copy {
    type Output = Self;

    /// Subtract `c` from each component.
    fn sub(self, c: T) -> (r: Self) {
        Okhsv {
            hue: OklabHue(self.hue.0 - c),
            saturation: self.saturation - c,
            value: self.value - c,
        }
    }
}

impl<T> SubSpecImpl<T> for Okhsv<T> where T: Sub<Output = T> + Copy {
    open spec fn obeys_sub_spec() -> bool {
        T::obeys_sub_spec()
    }

    open spec fn sub_req(self, rhs: T) -> bool {
        self.hue.0.sub_req(rhs)
        && self.saturation.sub_req(rhs)
        && self.value.sub_req(rhs)
    }

    open spec fn sub_spec(self, rhs: T) -> Self {
        Okhsv {
            hue: OklabHue(self.hue.0.sub_spec(rhs)),
            saturation: self.saturation.sub_spec(rhs),
            value: self.value.sub_spec(rhs),
        }
    }
}

impl<T> GetHue for Okhsv<T> where T: Copy {
    type Hue = OklabHue<T>;

    open spec fn get_hue_req(&self) -> bool {
        true
    }

    open spec fn obeys_get_hue_spec() -> bool {
        true
    }

    open spec fn get_hue_spec(&self) -> Option<OklabHue<T>> {
        Some(self.hue)
    }

    /// The hue, which this color always has.
    fn get_hue(&self) -> (r: Option<OklabHue<T>>)
    {
        Some(self.hue)
    }
}

impl<T> Hue for Okhsv<T> where T: Copy + Add<Output = T> {
    open spec fn shift_hue_req(&self, amount: OklabHue<T>) -> bool {
        self.hue.0.add_req(amount.0)
    }

    open spec fn with_hue_spec(&self, hue: OklabHue<T>) -> Self {
        Okhsv {
            hue,
            saturation: self.saturation,
            value: self.value,
        }
    }

    open spec fn obeys_shift_hue_spec() -> bool {
        T::obeys_add_spec()
    }

    open spec fn shift_hue_spec(&self, amount: OklabHue<T>) -> Self {
        Okhsv {
            hue: OklabHue(self.hue.0.add_spec(amount.0)),
            saturation: self.saturation,
            value: self.value,
        }
    }

    fn with_hue<H: Into<OklabHue<T>>>(&self, hue: H) -> (r: Self)
        ensures
            call_ensures(<H as Into<OklabHue<T>>>::into, (hue,), r.hue),
            <H as IntoSpec<OklabHue<T>>>::obeys_into_spec() ==> r.hue == hue.into_spec(),
            r.saturation == self.saturation,
            r.value == self.value,
    {
        Okhsv {
            hue: hue.into(),
            saturation: self.saturation,
            value: self.value,
        }
    }

    fn shift_hue(&self, amount: OklabHue<T>) -> (r: Self)
        ensures
            T::obeys_add_spec() ==> r.hue.0 == self.hue.0.add_spec(amount.0),
            r.saturation == self.saturation,
            r.value == self.value,
    {
        Okhsv {
            hue: OklabHue(self.hue.0 + amount.0),
            saturation: self.saturation,
            value: self.value,
        }
    }
}

impl<T> Okhsv<T> where T: Zero + One + Sub<Output = T> + Div<Output = T> + PartialEq + Copy {
    /// The Okhsv color of an Okhwb color: black (saturation and value `0`)
    /// where the blackness is `1`, else saturation
    /// `1 - whiteness / (1 - blackness)` and value `1 - blackness`; the hue is
    /// kept.
    pub open spec fn from_okhwb_spec(hwb: Okhwb<T>) -> Self {
        if hwb.blackness.eq_spec(&T::one_spec()) {
            Okhsv { hue: hwb.hue, saturation: T::zero_spec(), value: T::zero_spec() }
        } else {
            Okhsv {
                hue: hwb.hue,
                saturation: T::one_spec().sub_spec(
                    hwb.whiteness.div_spec(T::one_spec().sub_spec(hwb.blackness)),
                ),
                value: T::one_spec().sub_spec(hwb.blackness),
            }
        }
    }
}

impl<T> FromColorUnclamped<Okhwb<T>> for Okhsv<T> where
    T: Zero + One + Sub<Output = T> + Div<Output = T> + PartialEq + Copy,
 {
    open spec fn from_color_unclamped_req(hwb: Okhwb<T>) -> bool {
        let inv = T::one_spec().sub_spec(hwb.blackness);
        &&& T::obeys_eq_spec()
        &&& T::obeys_sub_spec()
        &&& T::obeys_div_spec()
        &&& !hwb.blackness.eq_spec(&T::one_spec()) ==> {
            &&& T::one_spec().sub_req(hwb.blackness)
            &&& hwb.whiteness.div_req(inv)
            &&& T::one_spec().sub_req(hwb.whiteness.div_spec(inv))
        }
    }

    /// Converts an Okhwb color to Okhsv.
    fn from_color_unclamped(hwb: Okhwb<T>) -> (r: Self)
        ensures
            r == Self::from_okhwb_spec(hwb),
    {
        if hwb.blackness == T::one() {
            return Okhsv { hue: hwb.hue, saturation: T::zero(), value: T::zero() };
        }
        Okhsv {
            hue: hwb.hue,
            saturation: T::one() - hwb.whiteness / (T::one() - hwb.blackness),
            value: T::one() - hwb.blackness,
        }
    }
}

/// With `u64` components, converting an Okhsv color to Okhwb and back
/// gives the same color, unless its value is `0` (black keeps no
/// saturation).
pub proof fn law_okhsv_okhwb_round_trip(color: Okhsv<u64>)
    requires
        color.value != 0,
        <Okhwb<u64> as FromColorUnclamped<Okhsv<u64>>>::from_color_unclamped_req(color),
    ensures
        <Okhsv<u64> as FromColorUnclamped<Okhwb<u64>>>::from_color_unclamped_req(
            Okhwb::from_okhsv_spec(color),
        ),
        Okhsv::from_okhwb_spec(Okhwb::from_okhsv_spec(color)) == color,
{
    let v = color.value as int;
    let k = 1 - color.saturation;
    lemma_div_multiples_vanish(k, v);
    assert(k * v == v * k) by (nonlinear_arith);
}

impl<T> From<Okhsv<T>> for (OklabHue<T>, T, T) {
    /// The components of `color`.
    fn from(color: Okhsv<T>) -> (r: (OklabHue<T>, T, T)) {
        color.into_components()
    }
}

impl<T> FromSpecImpl<Okhsv<T>> for (OklabHue<T>, T, T) {
    open spec fn obeys_from_spec() -> bool {
        true
    }

    open spec fn from_spec(color: Okhsv<T>) -> (OklabHue<T>, T, T) {
        (color.hue, color.saturation, color.value)
    }
}

impl<T, HH: Into<OklabHue<T>>> From<(HH, T, T)> for Okhsv<T> {
    /// The color made of `components`, with the hue converted.
    fn from(components: (HH, T, T)) -> (r: Self) {
        Okhsv { hue: components.0.into(), saturation: components.1, value: components.2 }
    }
}

impl<T, HH: Into<OklabHue<T>>> FromSpecImpl<(HH, T, T)> for Okhsv<T> {
    open spec fn obeys_from_spec() -> bool {
        <HH as IntoSpec<OklabHue<T>>>::obeys_into_spec()
    }

    open spec fn from_spec(components: (HH, T, T)) -> Self {
        Okhsv { hue: components.0.into_spec(), saturation: components.1, value: components.2 }
    }
}

/// `from_components` and `into_components` are inverse to each other.
pub proof fn law_okhsv_components_round_trip<T>(color: Okhsv<T>, components: (OklabHue<T>, T, T))
    ensures
        Okhsv::<T>::from_components_spec(color.components_spec()) == color,
        Okhsv::<T>::from_components_spec(components).components_spec() == components,
{
}

impl<T> PartialEq for Okhsv<T> where T: PartialEq + AngleEq {
    /// Compare the hues as directions and the other components one by one.
    fn eq(&self, other: &Self) -> (r: bool) {
        self.hue == other.hue && self.saturation == other.saturation && self.value == other.value
    }
}

impl<T> PartialEqSpecImpl for Okhsv<T> where T: PartialEq + AngleEq {
    open spec fn obeys_eq_spec() -> bool {
        T::obeys_eq_spec()
    }

    open spec fn eq_spec(&self, other: &Self) -> bool {
        self.hue.0.angle_eq_spec(&other.hue.0)
        && self.saturation.eq_spec(&other.saturation)
        && self.value.eq_spec(&other.value)
    }
}

/// The arithmetic operators (Add, Sub) act on each component on its own:
/// combining two colors combines each component of `a` with the matching
/// component of `b`, and combining a color with a number `c` combines each
/// component with `c`, by the component type's own operator.
pub proof fn law_okhsv_arithmetic_is_componentwise<T>(
    a: Okhsv<T>,
    b: Okhsv<T>,
    c: T,
    add_color: Okhsv<T>,
    add_scalar: Okhsv<T>,
    sub_color: Okhsv<T>,
    sub_scalar: Okhsv<T>,
)
    where
        T: Add<Output = T> + Sub<Output = T> + Copy,
    requires
        T::obeys_add_spec(),
        T::obeys_sub_spec(),
        call_ensures(<Okhsv<T> as Add<Okhsv<T>>>::add, (a, b), add_color),
        call_ensures(<Okhsv<T> as Add<T>>::add, (a, c), add_scalar),
        call_ensures(<Okhsv<T> as Sub<Okhsv<T>>>::sub, (a, b), sub_color),
        call_ensures(<Okhsv<T> as Sub<T>>::sub, (a, c), sub_scalar),
    ensures
        add_color.hue.0 == a.hue.0.add_spec(b.hue.0),
        add_color.saturation == a.saturation.add_spec(b.saturation),
        add_color.value == a.value.add_spec(b.value),
        add_scalar.hue.0 == a.hue.0.add_spec(c),
        add_scalar.saturation == a.saturation.add_spec(c),
        add_scalar.value == a.value.add_spec(c),
        sub_color.hue.0 == a.hue.0.sub_spec(b.hue.0),
        sub_color.saturation == a.saturation.sub_spec(b.saturation),
        sub_color.value == a.value.sub_spec(b.value),
        sub_scalar.hue.0 == a.hue.0.sub_spec(c),
        sub_scalar.saturation == a.saturation.sub_spec(c),
        sub_scalar.value == a.value.sub_spec(c),
{
}

/// With `i32` components, two colors compare equal with `==` exactly when
/// their other components are equal and their hue angles differ by whole
/// turns.
pub proof fn law_okhsv_eq_i32(a: Okhsv<i32>, b: Okhsv<i32>, r: bool)
    requires
        call_ensures(<Okhsv<i32> as PartialEq<Okhsv<i32>>>::eq, (&a, &b), r),
    ensures
        r <==> (a.saturation == b.saturation && a.value == b.value && (a.hue.0 - b.hue.0) % 360 == 0),
{
}

/// With `i64` components, two colors compare equal with `==` exactly when
/// their other components are equal and their hue angles differ by whole
/// turns.
pub proof fn law_okhsv_eq_i64(a: Okhsv<i64>, b: Okhsv<i64>, r: bool)
    requires
        call_ensures(<Okhsv<i64> as PartialEq<Okhsv<i64>>>::eq, (&a, &b), r),
    ensures
        r <==> (a.saturation == b.saturation && a.value == b.value && (a.hue.0 - b.hue.0) % 360 == 0),
{
}

/// Converting an Okhwb color to Okhsv keeps the hue. A color with blackness
/// `1` (black) becomes black with no saturation. Any other color gets the
/// value `1 - blackness` and the saturation `1 - whiteness / (1 - blackness)`,
/// by the component type's own operators.
pub proof fn law_okhsv_from_okhwb<T>(hwb: Okhwb<T>, r: Okhsv<T>)
    where
        T: Zero + One + Sub<Output = T> + Div<Output = T> + PartialEq + Copy,
    requires
        call_ensures(<Okhsv<T> as FromColorUnclamped<Okhwb<T>>>::from_color_unclamped, (hwb,), r),
    ensures
        r.hue == hwb.hue,
        hwb.blackness.eq_spec(&T::one_spec()) ==> r.saturation == T::zero_spec() && r.value
            == T::zero_spec(),
        !hwb.blackness.eq_spec(&T::one_spec()) ==> r.value == T::one_spec().sub_spec(hwb.blackness),
        !hwb.blackness.eq_spec(&T::one_spec()) ==> r.saturation == T::one_spec().sub_spec(
            hwb.whiteness.div_spec(T::one_spec().sub_spec(hwb.blackness)),
        ),
{
}

/// `get_hue` gives the hue, or `None` where the color has no well defined
/// hue.
pub proof fn law_okhsv_get_hue<T>(c: Okhsv<T>, r: Option<OklabHue<T>>)
    where
        T: Copy,
    requires
        call_ensures(Okhsv::<T>::get_hue, (&c,), r),
    ensures
        r == {
            Some(c.hue)
        },
{
}

/// Building a color from a tuple of components puts each component in its
/// own place, and `into_components` gives the components back in the same
/// order.
pub proof fn law_okhsv_components_in_place<T>(
    components: (OklabHue<T>, T, T),
    built: Okhsv<T>,
    color: Okhsv<T>,
    parts: (OklabHue<T>, T, T),
)
    requires
        call_ensures(Okhsv::<T>::from_components::<OklabHue<T>>, (components,), built),
        call_ensures(Okhsv::<T>::into_components, (color,), parts),
    ensures
        built.hue == components.0,
        built.saturation == components.1,
        built.value == components.2,
        parts == (color.hue, color.saturation, color.value),
{
    assert(call_ensures(OklabHue::<T>::from, (components.0,), built.hue));
}

} // verus!
