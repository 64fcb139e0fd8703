//! Processes and their parents and children.

use vstd::prelude::*;

use core::marker::PhantomData;

use super::collections::{pid_map_items, rel_map_items, PidMap, RelMap};
use super::id::ProcId;
use super::manager::Manage;
use super::proc_rel::{wait_report, ProcRel};

verus! {

/// The processes, held by a kernel's container `M`, with the parent of
/// each and the relation of each to its children.
pub struct PManager<T, M> where M: Manage<T, ProcId> {
    manager: Option<M>,
    relations: RelMap,
    parents: PidMap,
    _marker: PhantomData<T>,
}

impl<T, M> PManager<T, M> where M: Manage<T, ProcId> {
    /// Whether the container was set.
    pub closed spec fn has_manager(&self) -> bool {
        self.manager is Some
    }

    /// The relation of each process (by number) to its children.
    pub closed spec fn relations_view(&self) -> Map<usize, ProcRel> {
        rel_map_items(self.relations)
    }

    /// The parent of each process, by numbers.
    pub closed spec fn parents_view(&self) -> Map<usize, usize> {
        pid_map_items(self.parents)
    }

    /// A manager with no container and no process.
    pub fn new() -> (r: Self)
        ensures
            !r.has_manager(),
            r.relations_view() == Map::<usize, ProcRel>::empty(),
            r.parents_view() == Map::<usize, usize>::empty(),
    {
        let r = PManager { manager: None, relations: RelMap::new(), parents: PidMap::new(), _marker: PhantomData };
        assert(r.relations_view() =~= Map::<usize, ProcRel>::empty());
        assert(r.parents_view() =~= Map::<usize, usize>::empty());
        r
    }

    /// Sets the container of the processes.
    pub fn set_manager(&mut self, manager: M)
        ensures
            final(self).has_manager(),
            final(self).relations_view() == old(self).relations_view(),
            final(self).parents_view() == old(self).parents_view(),
    {
        self.manager = Some(manager);
    }

    /// Adds process `pid` with `parent`: the container gets the item,
    /// `pid` is recorded as a running child of `parent`, and gets a
    /// relation of its own if it had none.  The container must be set.
    pub fn add(&mut self, pid: ProcId, proc_item: T, parent: ProcId)
        requires
            old(self).has_manager(),
        ensures
            final(self).has_manager(),
            final(self).parents_view() == old(self).parents_view().insert(pid.value(), parent.value()),
            ({
                let old_rels = old(self).relations_view();
                let rels = final(self).relations_view();
                let had = old_rels.contains_key(parent.value());
                let p = rels[parent.value()];
                &&& rels == old_rels.insert(parent.value(), p).insert(pid.value(), rels[pid.value()])
                &&& p.children_view() == (if had {
                    old_rels[parent.value()].children_view()
                } else {
                    Set::<usize>::empty()
                }).insert(pid.value())
                &&& p.exited_view() == (if had {
                    old_rels[parent.value()].exited_view()
                } else {
                    Seq::<(ProcId, isize)>::empty()
                })
                &&& p.parent_view() == (if had { old_rels[parent.value()].parent_view() } else { parent })
                &&& pid.value() != parent.value() && old_rels.contains_key(pid.value()) ==> rels[pid.value()]
                    == old_rels[pid.value()]
                &&& pid.value() != parent.value() && !old_rels.contains_key(pid.value()) ==> {
                    &&& rels[pid.value()].children_view() == Set::<usize>::empty()
                    &&& rels[pid.value()].exited_view() == Seq::<(ProcId, isize)>::empty()
                    &&& rels[pid.value()].parent_view() == pid
                }
            }),
    {
        match &mut self.manager {
            Some(m) => {
                m.insert(pid, proc_item);
            },
            None => {},
        }
        self.parents.put(pid.get_usize(), parent.get_usize());
        let mut rel = match self.relations.take(parent.get_usize()) {
            Some(r) => r,
            None => ProcRel::new(parent),
        };
        rel.add_child(pid);
        self.relations.put(parent.get_usize(), rel);
        let ghost mid = rel_map_items(self.relations);
        if !self.relations.contains_key(pid.get_usize()) {
            self.relations.put(pid.get_usize(), ProcRel::new(pid));
        }
        proof {
            let rels = rel_map_items(self.relations);
            assert(mid == rel_map_items(old(self).relations).insert(parent.value(), rel));
            if pid.value() == parent.value() {
                assert(rels == mid);
                assert(rels =~= mid.insert(pid.value(), rels[pid.value()]));
            } else {
                assert(rels =~= mid.insert(pid.value(), rels[pid.value()]));
            }
        }
    }

    /// Removes process `pid`, which exited with `exit_code`: the container
    /// drops it, it loses its parent, and its parent records the exit.
    /// The container must be set.
    pub fn del(&mut self, pid: ProcId, exit_code: isize)
        requires
            old(self).has_manager(),
        ensures
            final(self).has_manager(),
            final(self).parents_view() == old(self).parents_view().remove(pid.value()),
            ({
                let parents = old(self).parents_view();
                let old_rels = old(self).relations_view();
                let rels = final(self).relations_view();
                if parents.contains_key(pid.value()) && old_rels.contains_key(parents[pid.value()]) {
                    let q = parents[pid.value()];
                    let before = old_rels[q];
                    let after = rels[q];
                    &&& rels == old_rels.insert(q, after)
                    &&& after.parent_view() == before.parent_view()
                    &&& before.children_view().contains(pid.value()) ==> {
                        &&& after.children_view() == before.children_view().remove(pid.value())
                        &&& after.exited_view() == before.exited_view().push((pid, exit_code))
                    }
                    &&& !before.children_view().contains(pid.value()) ==> {
                        &&& after.children_view() == before.children_view()
                        &&& after.exited_view() == before.exited_view()
                    }
                } else {
                    rels == old_rels
                }
            }),
    {
        match &mut self.manager {
            Some(m) => {
                m.delete(pid);
            },
            None => {},
        }
        if let Some(parent) = self.parents.take(pid.get_usize()) {
            if let Some(mut rel) = self.relations.take(parent) {
                rel.del_child(pid, exit_code);
                self.relations.put(parent, rel);
                proof {
                    assert(rel_map_items(self.relations) =~= rel_map_items(old(self).relations).insert(parent, rel));
                }
            }
        }
    }

    /// What waiting for any child of `parent` reports (see
    /// [`ProcRel::wait_any_child`]); nothing for an unknown process.
    pub fn wait_any_child(&mut self, parent: ProcId) -> (r: Option<(ProcId, isize)>)
        ensures
            final(self).has_manager() == old(self).has_manager(),
            final(self).parents_view() == old(self).parents_view(),
            !old(self).relations_view().contains_key(parent.value()) ==> r is None
                && final(self).relations_view() == old(self).relations_view(),
            old(self).relations_view().contains_key(parent.value()) ==> {
                let before = old(self).relations_view()[parent.value()];
                let after = final(self).relations_view()[parent.value()];
                &&& r == wait_report(before.children_view(), before.exited_view())
                &&& final(self).relations_view() == old(self).relations_view().insert(parent.value(), after)
                &&& after.children_view() == before.children_view()
                &&& after.parent_view() == before.parent_view()
                &&& after.exited_view() == (if before.exited_view().len() > 0 {
                    before.exited_view().drop_first()
                } else {
                    before.exited_view()
                })
            },
    {
        match self.relations.take(parent.get_usize()) {
            None => None,
            Some(mut rel) => {
                let r = rel.wait_any_child();
                self.relations.put(parent.get_usize(), rel);
                proof {
                    assert(rel_map_items(self.relations) =~= rel_map_items(old(self).relations).insert(parent.value(), rel));
                }
                r
            },
        }
    }

    /// Whether process `pid` is known: it has a parent or a relation.
    pub fn has_proc(&self, pid: ProcId) -> (r: bool)
        ensures
            r == (self.parents_view().contains_key(pid.value()) || self.relations_view().contains_key(pid.value())),
    {
        self.parents.contains_key(pid.get_usize()) || self.relations.contains_key(pid.get_usize())
    }
}

} // verus!
