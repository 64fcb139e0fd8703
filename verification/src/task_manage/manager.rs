//! The container of tasks, as the managers see it.

use vstd::prelude::*;

verus! {

/// A task container that inserts, deletes and fetches items by id.
/// Kernels implement it for their own task tables.
pub trait Manage<T, I> {
    fn insert(&mut self, id: I, item: T);

    fn delete(&mut self, id: I);

    fn get_mut(&mut self, id: I) -> Option<&mut T>;
}

} // verus!
