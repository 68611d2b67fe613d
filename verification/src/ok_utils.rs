//! Values used by the Okhsl and Okhsv color spaces.

use vstd::prelude::*;

verus! {

/// Three chroma values of a lightness and hue: the chroma at saturation zero,
/// at mid saturation, and the largest that stays within the sRGB gamut.
pub struct ChromaValues<T> {
    /// The chroma at saturation zero.
    pub zero: T,
    /// The chroma at mid saturation.
    pub mid: T,
    /// The largest chroma of the lightness and hue within the sRGB gamut.
    pub max: T,
}

} // verus!
