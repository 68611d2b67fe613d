//! Number and color encoding traits, types and standards.
//!
//! The standards serve as type level markers on the color types that depend
//! on one.

use vstd::prelude::*;

verus! {

/// The sRGB standard, color space, and transfer function.
#[derive(Clone, Copy, Debug)]
pub struct Srgb;

} // verus!
