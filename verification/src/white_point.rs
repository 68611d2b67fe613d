//! Defines the tristimulus values of the CIE Illuminants.
//!
//! White point is the reference white or target white as seen by a standard
//! observer under a standard illuminant. Here they serve as type level
//! markers on the color types that depend on one.

use vstd::prelude::*;

verus! {

/// CIE D series standard illuminant - D65, with the CIE 1931 2° standard
/// observer.
///
/// D65 White Point is the natural daylight with a color temperature of
/// around 6500K for 2° Standard Observer.
#[derive(Clone, Copy, Debug)]
pub struct D65;

} // verus!
