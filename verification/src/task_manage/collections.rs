//! Hash sets and maps keyed by task ids, hashed with FNV-1a.

use vstd::prelude::*;

use core::hash::BuildHasherDefault;

use super::proc_rel::ProcRel;
use super::proc_thread_rel::ProcThreadRel;

verus! {

/// FNV-1a offset basis.
pub const FNV_OFFSET_BASIS: u64 = 0xcbf29ce484222325;
/// FNV-1a prime.
pub const FNV_PRIME: u64 = 0x100000001b3;

/// FNV-1a over `bytes`, starting from `hash`.
pub open spec fn fnv1a(hash: u64, bytes: Seq<u8>) -> u64
    decreases bytes.len(),
{
    if bytes.len() == 0 {
        hash
    } else {
        fnv1a(
            vstd::wrapping::u64_specs::wrapping_mul(hash ^ (bytes[0] as u64), FNV_PRIME),
            bytes.drop_first(),
        )
    }
}

/// A small FNV-1a hasher: deterministic in every process.
#[derive(Clone, Copy)]
pub struct SimpleHasher(u64);

impl SimpleHasher {
    /// The hash so far.
    pub closed spec fn state(&self) -> u64 {
        self.0
    }

    /// Folds `bytes` into the hash.
    pub fn write_bytes(&mut self, bytes: &[u8])
        ensures
            final(self).state() == fnv1a(old(self).state(), bytes@),
    {
        let mut hash = self.0;
        let mut i: usize = 0;
        proof {
            assert(bytes@.subrange(0, bytes@.len() as int) =~= bytes@);
        }
        while i < bytes.len()
            invariant
                0 <= i <= bytes@.len(),
                fnv1a(hash, bytes@.subrange(i as int, bytes@.len() as int)) == fnv1a(
                    old(self).state(),
                    bytes@,
                ),
            decreases bytes@.len() - i,
        {
            let b = bytes[i];
            proof {
                let rest = bytes@.subrange(i as int, bytes@.len() as int);
                assert(rest.drop_first() =~= bytes@.subrange(i + 1, bytes@.len() as int));
            }
            hash = hash ^ (b as u64);
            hash = hash.wrapping_mul(FNV_PRIME);
            i = i + 1;
        }
        proof {
            assert(bytes@.subrange(i as int, bytes@.len() as int) =~= Seq::<u8>::empty());
        }
        self.0 = hash;
    }
}

impl Default for SimpleHasher {
    /// A hasher at the offset basis.
    fn default() -> (r: Self)
        ensures
            r.state() == FNV_OFFSET_BASIS,
    {
        SimpleHasher(FNV_OFFSET_BASIS)
    }
}

impl core::hash::Hasher for SimpleHasher {
    /// The hash so far.
    fn finish(&self) -> (r: u64)
        ensures
            r == self.state(),
    {
        self.0
    }

    /// Folds `bytes` into the hash with FNV-1a.
    fn write(&mut self, bytes: &[u8])
        ensures
            final(self).state() == fnv1a(old(self).state(), bytes@),
    {
        self.write_bytes(bytes)
    }
}

} // verus!

verus! {

/// The build hasher of the task collections.
pub type FnvBuildHasher = BuildHasherDefault<SimpleHasher>;

/// A set of task ids (raw numbers), held in a `hashbrown::HashSet`.
#[verifier::external_body]
pub struct IdSet {
    inner: hashbrown::HashSet<usize, FnvBuildHasher>,
}

/// The ids an [`IdSet`] holds.
pub uninterp spec fn id_set_items(s: IdSet) -> Set<usize>;

impl IdSet {
    /// An empty set: `hashbrown::HashSet::with_hasher` makes a set with no
    /// element.
    #[verifier::external_body]
    pub(crate) fn new() -> (r: IdSet)
        ensures
            id_set_items(r) == Set::<usize>::empty(),
    {
        IdSet { inner: hashbrown::HashSet::with_hasher(FnvBuildHasher::default()) }
    }

    /// `hashbrown::HashSet::insert`: adds `id`; true when it was not there.
    #[verifier::external_body]
    pub(crate) fn insert(&mut self, id: usize) -> (r: bool)
        ensures
            r == !id_set_items(*old(self)).contains(id),
            id_set_items(*final(self)) == id_set_items(*old(self)).insert(id),
    {
        self.inner.insert(id)
    }

    /// `hashbrown::HashSet::remove`: takes `id` out; whether it was there.
    #[verifier::external_body]
    pub(crate) fn remove(&mut self, id: usize) -> (r: bool)
        ensures
            r == id_set_items(*old(self)).contains(id),
            id_set_items(*final(self)) == id_set_items(*old(self)).remove(id),
    {
        self.inner.remove(&id)
    }

    /// `hashbrown::HashSet::contains`: whether `id` is in the set.
    #[verifier::external_body]
    pub(crate) fn contains(&self, id: usize) -> (r: bool)
        ensures
            r == id_set_items(*self).contains(id),
    {
        self.inner.contains(&id)
    }

    /// `hashbrown::HashSet::len`: the number of ids.
    #[verifier::external_body]
    pub(crate) fn len(&self) -> (r: usize)
        ensures
            r == id_set_items(*self).len(),
    {
        self.inner.len()
    }

    /// `hashbrown::HashSet::is_empty`: whether no id is in the set.
    #[verifier::external_body]
    pub(crate) fn is_empty(&self) -> (r: bool)
        ensures
            r == (id_set_items(*self) == Set::<usize>::empty()),
    {
        self.inner.is_empty()
    }
}

/// A map from task ids (raw numbers) to words, held in a
/// `hashbrown::HashMap`.
#[verifier::external_body]
pub struct IdMap {
    inner: hashbrown::HashMap<usize, isize, FnvBuildHasher>,
}

/// The entries an [`IdMap`] holds.
pub uninterp spec fn id_map_items(m: IdMap) -> Map<usize, isize>;

impl IdMap {
    /// An empty map: `hashbrown::HashMap::with_hasher` makes a map with no
    /// entry.
    #[verifier::external_body]
    pub(crate) fn new() -> (r: IdMap)
        ensures
            id_map_items(r).dom() == Set::<usize>::empty(),
    {
        IdMap { inner: hashbrown::HashMap::with_hasher(FnvBuildHasher::default()) }
    }

    /// `hashbrown::HashMap::insert`: sets `id` to `value`, returning the
    /// value it had.
    #[verifier::external_body]
    pub(crate) fn insert(&mut self, id: usize, value: isize) -> (r: Option<isize>)
        ensures
            r == (if id_map_items(*old(self)).contains_key(id) {
                Some(id_map_items(*old(self))[id])
            } else {
                None
            }),
            id_map_items(*final(self)) == id_map_items(*old(self)).insert(id, value),
    {
        self.inner.insert(id, value)
    }

    /// `hashbrown::HashMap::remove`: takes the entry of `id` out, returning
    /// its value.
    #[verifier::external_body]
    pub(crate) fn remove(&mut self, id: usize) -> (r: Option<isize>)
        ensures
            r == (if id_map_items(*old(self)).contains_key(id) {
                Some(id_map_items(*old(self))[id])
            } else {
                None
            }),
            id_map_items(*final(self)) == id_map_items(*old(self)).remove(id),
    {
        self.inner.remove(&id)
    }

    /// `hashbrown::HashMap::get`: the value of `id`, copied.
    #[verifier::external_body]
    pub(crate) fn get(&self, id: usize) -> (r: Option<isize>)
        ensures
            r == (if id_map_items(*self).contains_key(id) {
                Some(id_map_items(*self)[id])
            } else {
                None
            }),
    {
        self.inner.get(&id).copied()
    }
}


/// A map from task ids (raw numbers) to their relations to their children, held in a
/// `hashbrown::HashMap`.
#[verifier::external_body]
pub struct RelMap {
    inner: hashbrown::HashMap<usize, ProcRel, FnvBuildHasher>,
}

/// The entries a [`RelMap`] holds.
pub uninterp spec fn rel_map_items(m: RelMap) -> Map<usize, ProcRel>;

impl RelMap {
    /// An empty map: `hashbrown::HashMap::with_hasher` makes a map with no
    /// entry.
    #[verifier::external_body]
    pub(crate) fn new() -> (r: RelMap)
        ensures
            rel_map_items(r).dom() == Set::<usize>::empty(),
    {
        RelMap { inner: hashbrown::HashMap::with_hasher(FnvBuildHasher::default()) }
    }

    /// `hashbrown::HashMap::contains_key`: whether `id` has an entry.
    #[verifier::external_body]
    pub(crate) fn contains_key(&self, id: usize) -> (r: bool)
        ensures
            r == rel_map_items(*self).contains_key(id),
    {
        self.inner.contains_key(&id)
    }

    /// `hashbrown::HashMap::insert`: sets `id` to `value`; the value it had
    /// is dropped.
    #[verifier::external_body]
    pub(crate) fn put(&mut self, id: usize, value: ProcRel)
        ensures
            rel_map_items(*final(self)) == rel_map_items(*old(self)).insert(id, value),
    {
        self.inner.insert(id, value);
    }

    /// `hashbrown::HashMap::remove`: takes the entry of `id` out, returning
    /// its value.
    #[verifier::external_body]
    pub(crate) fn take(&mut self, id: usize) -> (r: Option<ProcRel>)
        ensures
            r == (if rel_map_items(*old(self)).contains_key(id) {
                Some(rel_map_items(*old(self))[id])
            } else {
                None
            }),
            rel_map_items(*final(self)) == rel_map_items(*old(self)).remove(id),
    {
        self.inner.remove(&id)
    }
}

/// A map from task ids (raw numbers) to their relations to their threads, held in a
/// `hashbrown::HashMap`.
#[verifier::external_body]
pub struct ThreadRelMap {
    inner: hashbrown::HashMap<usize, ProcThreadRel, FnvBuildHasher>,
}

/// The entries a [`ThreadRelMap`] holds.
pub uninterp spec fn thread_rel_map_items(m: ThreadRelMap) -> Map<usize, ProcThreadRel>;

impl ThreadRelMap {
    /// An empty map: `hashbrown::HashMap::with_hasher` makes a map with no
    /// entry.
    #[verifier::external_body]
    pub(crate) fn new() -> (r: ThreadRelMap)
        ensures
            thread_rel_map_items(r).dom() == Set::<usize>::empty(),
    {
        ThreadRelMap { inner: hashbrown::HashMap::with_hasher(FnvBuildHasher::default()) }
    }

    /// `hashbrown::HashMap::contains_key`: whether `id` has an entry.
    #[verifier::external_body]
    pub(crate) fn contains_key(&self, id: usize) -> (r: bool)
        ensures
            r == thread_rel_map_items(*self).contains_key(id),
    {
        self.inner.contains_key(&id)
    }

    /// `hashbrown::HashMap::insert`: sets `id` to `value`; the value it had
    /// is dropped.
    #[verifier::external_body]
    pub(crate) fn put(&mut self, id: usize, value: ProcThreadRel)
        ensures
            thread_rel_map_items(*final(self)) == thread_rel_map_items(*old(self)).insert(id, value),
    {
        self.inner.insert(id, value);
    }

    /// `hashbrown::HashMap::get`: the value of `id`, borrowed.
    #[verifier::external_body]
    pub(crate) fn get(&self, id: usize) -> (r: Option<&ProcThreadRel>)
        ensures
            (r is Some) == thread_rel_map_items(*self).contains_key(id),
            r matches Some(x) ==> *x == thread_rel_map_items(*self)[id],
    {
        self.inner.get(&id)
    }

    /// `hashbrown::HashMap::remove`: takes the entry of `id` out, returning
    /// its value.
    #[verifier::external_body]
    pub(crate) fn take(&mut self, id: usize) -> (r: Option<ProcThreadRel>)
        ensures
            r == (if thread_rel_map_items(*old(self)).contains_key(id) {
                Some(thread_rel_map_items(*old(self))[id])
            } else {
                None
            }),
            thread_rel_map_items(*final(self)) == thread_rel_map_items(*old(self)).remove(id),
    {
        self.inner.remove(&id)
    }
}

/// A map from task ids (raw numbers) to task ids, held in a
/// `hashbrown::HashMap`.
#[verifier::external_body]
pub struct PidMap {
    inner: hashbrown::HashMap<usize, usize, FnvBuildHasher>,
}

/// The entries a [`PidMap`] holds.
pub uninterp spec fn pid_map_items(m: PidMap) -> Map<usize, usize>;

impl PidMap {
    /// An empty map: `hashbrown::HashMap::with_hasher` makes a map with no
    /// entry.
    #[verifier::external_body]
    pub(crate) fn new() -> (r: PidMap)
        ensures
            pid_map_items(r).dom() == Set::<usize>::empty(),
    {
        PidMap { inner: hashbrown::HashMap::with_hasher(FnvBuildHasher::default()) }
    }

    /// `hashbrown::HashMap::contains_key`: whether `id` has an entry.
    #[verifier::external_body]
    pub(crate) fn contains_key(&self, id: usize) -> (r: bool)
        ensures
            r == pid_map_items(*self).contains_key(id),
    {
        self.inner.contains_key(&id)
    }

    /// `hashbrown::HashMap::insert`: sets `id` to `value`; the value it had
    /// is dropped.
    #[verifier::external_body]
    pub(crate) fn put(&mut self, id: usize, value: usize)
        ensures
            pid_map_items(*final(self)) == pid_map_items(*old(self)).insert(id, value),
    {
        self.inner.insert(id, value);
    }

    /// `hashbrown::HashMap::remove`: takes the entry of `id` out, returning
    /// its value.
    #[verifier::external_body]
    pub(crate) fn take(&mut self, id: usize) -> (r: Option<usize>)
        ensures
            r == (if pid_map_items(*old(self)).contains_key(id) {
                Some(pid_map_items(*old(self))[id])
            } else {
                None
            }),
            pid_map_items(*final(self)) == pid_map_items(*old(self)).remove(id),
    {
        self.inner.remove(&id)
    }

    /// `hashbrown::HashMap::get`: the value of `id`, copied.
    #[verifier::external_body]
    pub(crate) fn get(&self, id: usize) -> (r: Option<usize>)
        ensures
            r == (if pid_map_items(*self).contains_key(id) {
                Some(pid_map_items(*self)[id])
            } else {
                None
            }),
    {
        self.inner.get(&id).copied()
    }
}

} // verus!
