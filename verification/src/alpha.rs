//! A transparency component that can be attached to any color type.

use vstd::pervasive::cloned;
use vstd::prelude::*;

verus! {

/// An alpha component wrapper for colors, for adding transparency.
///
/// Instead of having separate types for "RGB with alpha", "HSV with alpha",
/// and so on, Palette uses this wrapper type to attach the alpha component.
/// The color type's own constructors and conversions are then available for
/// `Alpha<Color, A>` too.
#[derive(Copy, Debug)]
pub struct Alpha<C, T> {
    /// The color.
    pub color: C,
    /// The transparency component. 0.0 is fully transparent and 1.0 is fully
    /// opaque.
    pub alpha: T,
}

impl<C: Clone, T: Clone> Clone for Alpha<C, T> {
    fn clone(&self) -> (r: Self)
        ensures
            cloned(self.color, r.color),
            cloned(self.alpha, r.alpha),
    {
        Alpha { color: self.color.clone(), alpha: self.alpha.clone() }
    }
}

} // verus!
