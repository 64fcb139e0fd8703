//! Identifiers of processes, threads and coroutines.

use vstd::prelude::*;

verus! {

/// A process id.
#[derive(Clone, Copy, Debug, Default, PartialEq, Eq, Structural, PartialOrd, Ord, Hash)]
pub struct ProcId(usize);

/// A thread id.
#[derive(Clone, Copy, Debug, Default, PartialEq, Eq, Structural, PartialOrd, Ord, Hash)]
pub struct ThreadId(usize);

/// A coroutine id.
#[derive(Clone, Copy, Debug, Default, PartialEq, Eq, Structural, PartialOrd, Ord, Hash)]
pub struct CoroId(usize);

impl ProcId {
    /// The number of the id.
    pub closed spec fn value(self) -> usize {
        self.0
    }

    /// The id with number `value`.
    pub closed spec fn from_usize_spec(value: usize) -> ProcId {
        ProcId(value)
    }

    /// The id built from a number has that number.
    pub proof fn lemma_from_usize_spec(value: usize)
        ensures
            Self::from_usize_spec(value).value() == value,
    {
    }

    /// The id with number `value`.
    pub fn from_usize(value: usize) -> (r: Self)
        ensures
            r.value() == value,
            r == Self::from_usize_spec(value),
    {
        ProcId(value)
    }

    /// The number of the id.
    pub fn get_usize(self) -> (r: usize)
        ensures
            r == self.value(),
    {
        self.0
    }

    /// Ids are equal exactly when their numbers are.
    pub proof fn lemma_value_injective(a: Self, b: Self)
        ensures
            (a.value() == b.value()) == (a == b),
    {
    }
}

impl ThreadId {
    /// The number of the id.
    pub closed spec fn value(self) -> usize {
        self.0
    }

    /// The id with number `value`.
    pub fn from_usize(value: usize) -> (r: Self)
        ensures
            r.value() == value,
    {
        ThreadId(value)
    }

    /// The number of the id.
    pub fn get_usize(self) -> (r: usize)
        ensures
            r == self.value(),
    {
        self.0
    }

    /// Ids are equal exactly when their numbers are.
    pub proof fn lemma_value_injective(a: Self, b: Self)
        ensures
            (a.value() == b.value()) == (a == b),
    {
    }
}

impl CoroId {
    /// The number of the id.
    pub closed spec fn value(self) -> usize {
        self.0
    }

    /// The id with number `value`.
    pub fn from_usize(value: usize) -> (r: Self)
        ensures
            r.value() == value,
    {
        CoroId(value)
    }

    /// The number of the id.
    pub fn get_usize(self) -> (r: usize)
        ensures
            r == self.value(),
    {
        self.0
    }
}

} // verus!
