//! The scheduler, as the managers see it.

use vstd::prelude::*;

verus! {

/// A task scheduler: ids go in with `add` and come out with `fetch`.
/// Kernels implement it with their own policy.
pub trait Schedule<I> {
    fn add(&mut self, id: I);

    fn fetch(&mut self) -> Option<I>;
}

} // verus!
