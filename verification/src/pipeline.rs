//! Experimental pipeline.

use vstd::prelude::*;

verus! {

/// Experimental pipeline trait.
pub trait Pipeline<I>: Sized {
    /// The output type of the pipeline operation.
    type Output;

    /// Whether `apply` can process `input`.
    spec fn apply_requires(&self, input: I) -> bool;

    /// Whether `output` is a possible result of processing `input`.
    spec fn apply_ensures(&self, input: I, output: Self::Output) -> bool;

    /// Process some input with the pipeline.
    fn apply(&self, input: I) -> (r: Self::Output)
        requires
            self.apply_requires(input),
        ensures
            self.apply_ensures(input, r),
    ;
}

impl<T: Fn(I) -> O, I, O> Pipeline<I> for T {
    type Output = O;

    open spec fn apply_requires(&self, input: I) -> bool {
        self.requires((input,))
    }

    open spec fn apply_ensures(&self, input: I, output: O) -> bool {
        self.ensures((input,), output)
    }

    fn apply(&self, input: I) -> (r: O) {
        self(input)
    }
}

} // verus!
