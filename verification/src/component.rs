//! Color components and the conversions between component types.
//!
//! Conversions between integer component types scale the value so that the
//! full range of one type maps onto the full range of the other: `0` stays
//! `0` and the maximum of one type becomes the maximum of the other.

use crate::num::Zero;
use vstd::prelude::*;

verus! {

/// Common trait for color components.
pub trait Component: Copy + Zero + PartialOrd {
    /// The value that `max_intensity` returns.
    spec fn max_intensity_spec() -> Self;

    /// The highest displayable value this component type can reach. Higher
    /// values are allowed, but they may be lowered to this before
    /// converting to another format.
    fn max_intensity() -> (r: Self)
        ensures
            r == Self::max_intensity_spec(),
    ;
}

/// Trait for converting between color components; component-specific version
/// of `std::convert::From`.
pub trait FromComponent<T: Component>: Component {
    /// The value that `from_component` returns.
    spec fn from_component_spec(t: T) -> Self;

    /// Convert from another color component type, including scaling.
    fn from_component(t: T) -> (r: Self)
        ensures
            r == Self::from_component_spec(t),
    ;
}

/// Trait for converting between color components; component-specific version
/// of `std::convert::Into`.
pub trait IntoComponent<T: Component>: Component {
    /// The value that `into_component` returns.
    spec fn into_component_spec(self) -> T;

    /// Convert into another color component type, including scaling.
    fn into_component(self) -> (r: T)
        ensures
            r == self.into_component_spec(),
    ;
}

impl<T, U> IntoComponent<U> for T where T: Component, U: FromComponent<T> {
    open spec fn into_component_spec(self) -> U {
        U::from_component_spec(self)
    }

    fn into_component(self) -> (r: U) {
        U::from_component(self)
    }
}

impl Component for u8 {
    open spec fn max_intensity_spec() -> u8 {
        u8::MAX
    }

    fn max_intensity() -> (r: u8) {
        u8::MAX
    }
}

impl Component for u16 {
    open spec fn max_intensity_spec() -> u16 {
        u16::MAX
    }

    fn max_intensity() -> (r: u16) {
        u16::MAX
    }
}

impl Component for u32 {
    open spec fn max_intensity_spec() -> u32 {
        u32::MAX
    }

    fn max_intensity() -> (r: u32) {
        u32::MAX
    }
}

impl Component for u64 {
    open spec fn max_intensity_spec() -> u64 {
        u64::MAX
    }

    fn max_intensity() -> (r: u64) {
        u64::MAX
    }
}

// Conversions from smaller int to larger int
//
// Each of the larger max values is evenly divisible by the smaller ones,
// so no floating point operations are needed.
impl FromComponent<u8> for u16 {
    open spec fn from_component_spec(value: u8) -> u16 {
        (value * 257) as u16
    }

    fn from_component(value: u8) -> (r: u16) {
        let scale = u16::MAX / u16::from(u8::MAX);
        let wide = u16::from(value);
        assert(scale == 257 && wide == value);
        wide * scale
    }
}

impl FromComponent<u8> for u32 {
    open spec fn from_component_spec(value: u8) -> u32 {
        (value * 16843009) as u32
    }

    fn from_component(value: u8) -> (r: u32) {
        let scale = u32::MAX / u32::from(u8::MAX);
        let wide = u32::from(value);
        assert(scale == 16843009 && wide == value);
        wide * scale
    }
}

impl FromComponent<u16> for u32 {
    open spec fn from_component_spec(value: u16) -> u32 {
        (value * 65537) as u32
    }

    fn from_component(value: u16) -> (r: u32) {
        let scale = u32::MAX / u32::from(u16::MAX);
        let wide = u32::from(value);
        assert(scale == 65537 && wide == value);
        wide * scale
    }
}

// Conversions from larger int to smaller int
//
// We want to divide by the (integer) quotient of the max values, while
// rounding to nearest instead of down. To do so, we add half the divisor
// (rounded down) to the dividend, then divide rounding down. The addition
// saturates at the maximum of the larger type.
/// `int + half`, saturated at `max`.
pub open spec fn saturated_sum(value: int, half: int, max: int) -> int {
    if value + half > max {
        max
    } else {
        value + half
    }
}

impl FromComponent<u16> for u8 {
    open spec fn from_component_spec(value: u16) -> u8 {
        (saturated_sum(value as int, 128, u16::MAX as int) / 257) as u8
    }

    fn from_component(value: u16) -> (r: u8) {
        let divisor = u16::MAX / u16::from(u8::MAX);
        let dividend = value.saturating_add(divisor / 2);
        (dividend / divisor) as u8
    }
}

impl FromComponent<u32> for u8 {
    open spec fn from_component_spec(value: u32) -> u8 {
        (saturated_sum(value as int, 8421504, u32::MAX as int) / 16843009) as u8
    }

    fn from_component(value: u32) -> (r: u8) {
        let divisor = u32::MAX / u32::from(u8::MAX);
        let dividend = value.saturating_add(divisor / 2);
        (dividend / divisor) as u8
    }
}

impl FromComponent<u32> for u16 {
    open spec fn from_component_spec(value: u32) -> u16 {
        (saturated_sum(value as int, 32768, u32::MAX as int) / 65537) as u16
    }

    fn from_component(value: u32) -> (r: u16) {
        let divisor = u32::MAX / u32::from(u16::MAX);
        let dividend = value.saturating_add(divisor / 2);
        (dividend / divisor) as u16
    }
}

/// Widening an 8-bit component to 16 bits and narrowing it back gives the
/// starting value.
pub proof fn law_u8_u16_round_trip(value: u8)
    ensures
        u8::from_component_spec(u16::from_component_spec(value)) == value,
{
    assert(saturated_sum((value * 257) as int, 128, u16::MAX as int) / 257 == value);
}

/// Widening an 8-bit component to 32 bits and narrowing it back gives the
/// starting value.
pub proof fn law_u8_u32_round_trip(value: u8)
    ensures
        u8::from_component_spec(u32::from_component_spec(value)) == value,
{
    assert(saturated_sum((value * 16843009) as int, 8421504, u32::MAX as int) / 16843009 == value);
}

/// Widening a 16-bit component to 32 bits and narrowing it back gives the
/// starting value.
pub proof fn law_u16_u32_round_trip(value: u16)
    ensures
        u16::from_component_spec(u32::from_component_spec(value)) == value,
{
    assert(saturated_sum((value * 65537) as int, 32768, u32::MAX as int) / 65537 == value);
}

/// Narrowing a 16-bit component to 8 bits picks the nearest 8-bit value: its
/// widened form is at most half a step away from the input.
pub proof fn law_u16_to_u8_is_nearest(value: u16)
    ensures
        -128 <= u8::from_component_spec(value) * 257 - value <= 128,
{
}

/// Narrowing a 32-bit component to 8 bits picks the nearest 8-bit value.
pub proof fn law_u32_to_u8_is_nearest(value: u32)
    ensures
        -8421504 <= u8::from_component_spec(value) * 16843009 - value <= 8421505,
{
}

/// Narrowing a 32-bit component to 16 bits picks the nearest 16-bit value.
pub proof fn law_u32_to_u16_is_nearest(value: u32)
    ensures
        -32768 <= u16::from_component_spec(value) * 65537 - value <= 32769,
{
}

/// Narrowing conversions keep the order of the components.
pub proof fn law_narrowing_is_monotonic(a: u32, b: u32)
    requires
        a <= b,
    ensures
        u8::from_component_spec(a) <= u8::from_component_spec(b),
        u16::from_component_spec(a) <= u16::from_component_spec(b),
{
}

} // verus!
