//! Conversion between color types.

use vstd::prelude::*;

verus! {

/// A trait for converting one color from another, without clamping the
/// result to the valid range of the target type.
pub trait FromColorUnclamped<T>: Sized {
    /// Whether the component arithmetic of converting `val` can be done.
    spec fn from_color_unclamped_req(val: T) -> bool;

    /// Convert from `T`. The resulting color may be outside the valid range.
    fn from_color_unclamped(val: T) -> Self
        requires
            Self::from_color_unclamped_req(val),
    ;
}

} // verus!
