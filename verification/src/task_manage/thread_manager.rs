//! Threads, the processes that own them, and the running thread.

use vstd::prelude::*;

use core::marker::PhantomData;

use super::collections::{pid_map_items, thread_rel_map_items, PidMap, ThreadRelMap};
use super::id::{ProcId, ThreadId};
use super::manager::Manage;
use super::proc_thread_rel::{thread_wait_report, ProcThreadRel, THREAD_WAIT_PENDING};
use super::scheduler::Schedule;

verus! {

/// The threads, held and scheduled by a kernel's container `M`, the
/// processes, held by `PM`, the owner of each thread, the relation of each
/// process to its threads, and the running thread.
pub struct PThreadManager<T, P, M, PM> where M: Manage<T, ThreadId> + Schedule<ThreadId>, PM: Manage<P, ProcId> {
    manager: Option<M>,
    proc_manager: Option<PM>,
    proc_threads: ThreadRelMap,
    thread_owner: PidMap,
    current: Option<ThreadId>,
    _marker: PhantomData<(T, P)>,
}

impl<T, P, M, PM> PThreadManager<T, P, M, PM> where
    M: Manage<T, ThreadId> + Schedule<ThreadId>,
    PM: Manage<P, ProcId>,
 {
    /// Whether the thread container was set.
    pub closed spec fn has_manager(&self) -> bool {
        self.manager is Some
    }

    /// Whether the process container was set.
    pub closed spec fn has_proc_manager(&self) -> bool {
        self.proc_manager is Some
    }

    /// The relation of each process (by number) to its threads.
    pub closed spec fn threads_view(&self) -> Map<usize, ProcThreadRel> {
        thread_rel_map_items(self.proc_threads)
    }

    /// The owner of each thread, by numbers.
    pub closed spec fn owners_view(&self) -> Map<usize, usize> {
        pid_map_items(self.thread_owner)
    }

    /// The running thread.
    pub closed spec fn current_view(&self) -> Option<ThreadId> {
        self.current
    }

    /// Only the containers may have changed.
    pub open spec fn same_tables(&self, old: &Self) -> bool {
        &&& self.threads_view() == old.threads_view()
        &&& self.owners_view() == old.owners_view()
    }

    /// A manager with no container, thread or process.
    pub fn new() -> (r: Self)
        ensures
            !r.has_manager(),
            !r.has_proc_manager(),
            r.threads_view() == Map::<usize, ProcThreadRel>::empty(),
            r.owners_view() == Map::<usize, usize>::empty(),
            r.current_view() is None,
    {
        let r = PThreadManager {
            manager: None,
            proc_manager: None,
            proc_threads: ThreadRelMap::new(),
            thread_owner: PidMap::new(),
            current: None,
            _marker: PhantomData,
        };
        assert(r.threads_view() =~= Map::<usize, ProcThreadRel>::empty());
        assert(r.owners_view() =~= Map::<usize, usize>::empty());
        r
    }

    /// Sets the container of the threads.
    pub fn set_manager(&mut self, manager: M)
        ensures
            final(self).has_manager(),
            final(self).has_proc_manager() == old(self).has_proc_manager(),
            final(self).same_tables(old(self)),
            final(self).current_view() == old(self).current_view(),
    {
        self.manager = Some(manager);
    }

    /// Sets the container of the processes.
    pub fn set_proc_manager(&mut self, proc_manager: PM)
        ensures
            final(self).has_proc_manager(),
            final(self).has_manager() == old(self).has_manager(),
            final(self).same_tables(old(self)),
            final(self).current_view() == old(self).current_view(),
    {
        self.proc_manager = Some(proc_manager);
    }

    /// Gives process `pid` a relation with no thread if it has none.
    fn proc_rel_for(&mut self, pid: ProcId)
        ensures
            final(self).has_manager() == old(self).has_manager(),
            final(self).has_proc_manager() == old(self).has_proc_manager(),
            final(self).owners_view() == old(self).owners_view(),
            final(self).current_view() == old(self).current_view(),
            old(self).threads_view().contains_key(pid.value()) ==> final(self).threads_view()
                == old(self).threads_view(),
            !old(self).threads_view().contains_key(pid.value()) ==> {
                let r = final(self).threads_view()[pid.value()];
                &&& final(self).threads_view() == old(self).threads_view().insert(pid.value(), r)
                &&& r.threads_view() == Set::<usize>::empty()
                &&& r.exited_view() == Map::<usize, isize>::empty()
                &&& r.parent_view() == pid
            },
    {
        if !self.proc_threads.contains_key(pid.get_usize()) {
            self.proc_threads.put(pid.get_usize(), ProcThreadRel::new(pid));
        }
    }

    /// Adds process `pid`: the process container gets the item, and the
    /// process a relation with no thread if it has none; `parent` is not
    /// used.  The process container must be set.
    pub fn add_proc(&mut self, pid: ProcId, proc_item: P, parent: ProcId)
        requires
            old(self).has_proc_manager(),
        ensures
            final(self).has_manager() == old(self).has_manager(),
            final(self).has_proc_manager(),
            final(self).owners_view() == old(self).owners_view(),
            final(self).current_view() == old(self).current_view(),
            old(self).threads_view().contains_key(pid.value()) ==> final(self).threads_view()
                == old(self).threads_view(),
            !old(self).threads_view().contains_key(pid.value()) ==> {
                let r = final(self).threads_view()[pid.value()];
                &&& final(self).threads_view() == old(self).threads_view().insert(pid.value(), r)
                &&& r.threads_view() == Set::<usize>::empty()
                &&& r.exited_view() == Map::<usize, isize>::empty()
                &&& r.parent_view() == pid
            },
    {
        match &mut self.proc_manager {
            Some(pm) => {
                pm.insert(pid, proc_item);
            },
            None => {},
        }
        self.proc_rel_for(pid);
    }

    /// Adds thread `tid` of process `owner`: the thread container gets the
    /// item and schedules the thread, and the thread is recorded as a
    /// running thread of `owner`.  The thread container must be set.
    pub fn add(&mut self, tid: ThreadId, thread_item: T, owner: ProcId)
        requires
            old(self).has_manager(),
        ensures
            final(self).has_manager(),
            final(self).has_proc_manager() == old(self).has_proc_manager(),
            final(self).current_view() == old(self).current_view(),
            final(self).owners_view() == old(self).owners_view().insert(tid.value(), owner.value()),
            ({
                let old_rels = old(self).threads_view();
                let had = old_rels.contains_key(owner.value());
                let r = final(self).threads_view()[owner.value()];
                &&& final(self).threads_view() == old_rels.insert(owner.value(), r)
                &&& r.threads_view() == (if had {
                    old_rels[owner.value()].threads_view()
                } else {
                    Set::<usize>::empty()
                }).insert(tid.value())
                &&& r.exited_view() == (if had {
                    old_rels[owner.value()].exited_view()
                } else {
                    Map::<usize, isize>::empty()
                })
                &&& r.parent_view() == (if had { old_rels[owner.value()].parent_view() } else { owner })
            }),
    {
        match &mut self.manager {
            Some(m) => {
                m.insert(tid, thread_item);
                m.add(tid);
            },
            None => {},
        }
        self.thread_owner.put(tid.get_usize(), owner.get_usize());
        self.proc_rel_for(owner);
        let ghost mid = thread_rel_map_items(self.proc_threads);
        if let Some(mut rel) = self.proc_threads.take(owner.get_usize()) {
            rel.add_thread(tid);
            self.proc_threads.put(owner.get_usize(), rel);
            proof {
                assert(thread_rel_map_items(self.proc_threads) =~= mid.insert(owner.value(), rel));
            }
        }
    }

    /// Runs the next thread the container schedules; `None` when there is
    /// none, and the running thread stays.  The thread container must be
    /// set.  Which thread comes next is the container's own `fetch`; what
    /// is done with its answer is [`Self::run_fetched`].
    pub fn find_next(&mut self) -> (r: Option<ThreadId>)
        requires
            old(self).has_manager(),
        ensures
            final(self).has_manager(),
            final(self).has_proc_manager() == old(self).has_proc_manager(),
            final(self).same_tables(old(self)),
            r is Some ==> final(self).current_view() == r,
            r is None ==> final(self).current_view() == old(self).current_view(),
    {
        let next = match &mut self.manager {
            Some(m) => m.fetch(),
            None => None,
        };
        self.run_fetched(next)
    }

    /// Makes `next`, the thread the container's scheduler handed out, the
    /// running one and returns it; with `None` nothing changes.
    pub fn run_fetched(&mut self, next: Option<ThreadId>) -> (r: Option<ThreadId>)
        ensures
            r == next,
            final(self).has_manager() == old(self).has_manager(),
            final(self).has_proc_manager() == old(self).has_proc_manager(),
            final(self).same_tables(old(self)),
            next is Some ==> final(self).current_view() == next,
            next is None ==> final(self).current_view() == old(self).current_view(),
    {
        match next {
            Some(id) => {
                self.current = Some(id);
                Some(id)
            },
            None => None,
        }
    }

    /// Gives the running thread back to the container to be scheduled
    /// again; no thread runs after.  The thread container must be set.
    pub fn make_current_suspend(&mut self)
        requires
            old(self).has_manager(),
        ensures
            final(self).has_manager(),
            final(self).has_proc_manager() == old(self).has_proc_manager(),
            final(self).same_tables(old(self)),
            final(self).current_view() is None,
    {
        let current = self.current;
        self.current = None;
        if let Some(id) = current {
            match &mut self.manager {
                Some(m) => {
                    m.add(id);
                },
                None => {},
            }
        }
    }

    /// Ends the running thread with `exit_code`: the container drops it,
    /// and its process records the exit; no thread runs after.  The
    /// thread container must be set.
    pub fn make_current_exited(&mut self, exit_code: isize)
        requires
            old(self).has_manager(),
        ensures
            final(self).has_manager(),
            final(self).has_proc_manager() == old(self).has_proc_manager(),
            final(self).current_view() is None,
            final(self).owners_view() == old(self).owners_view(),
            ({
                let owners = old(self).owners_view();
                let old_rels = old(self).threads_view();
                let rels = final(self).threads_view();
                match old(self).current_view() {
                    Some(id) => if owners.contains_key(id.value()) && old_rels.contains_key(owners[id.value()]) {
                        let q = owners[id.value()];
                        let before = old_rels[q];
                        let after = rels[q];
                        &&& rels == old_rels.insert(q, after)
                        &&& after.parent_view() == before.parent_view()
                        &&& before.threads_view().contains(id.value()) ==> {
                            &&& after.threads_view() == before.threads_view().remove(id.value())
                            &&& after.exited_view() == before.exited_view().insert(id.value(), exit_code)
                        }
                        &&& !before.threads_view().contains(id.value()) ==> {
                            &&& after.threads_view() == before.threads_view()
                            &&& after.exited_view() == before.exited_view()
                        }
                    } else {
                        rels == old_rels
                    },
                    None => rels == old_rels,
                }
            }),
    {
        let current = self.current;
        self.current = None;
        if let Some(id) = current {
            match &mut self.manager {
                Some(m) => {
                    m.delete(id);
                },
                None => {},
            }
            if let Some(owner) = self.thread_owner.get(id.get_usize()) {
                if let Some(mut rel) = self.proc_threads.take(owner) {
                    rel.del_thread(id, exit_code);
                    self.proc_threads.put(owner, rel);
                    proof {
                        assert(thread_rel_map_items(self.proc_threads) =~= thread_rel_map_items(
                            old(self).proc_threads,
                        ).insert(owner, rel));
                    }
                }
            }
        }
    }

    /// Waits for thread `tid`: its exit code, consumed, when it exited; the
    /// pending code while it runs; nothing for a thread with no owner or
    /// an owner with no relation.  A thread whose exit was reported, or
    /// that its process does not know, loses its owner.
    pub fn waittid(&mut self, tid: ThreadId) -> (r: Option<isize>)
        ensures
            final(self).has_manager() == old(self).has_manager(),
            final(self).has_proc_manager() == old(self).has_proc_manager(),
            final(self).current_view() == old(self).current_view(),
            ({
                let owners = old(self).owners_view();
                let old_rels = old(self).threads_view();
                if owners.contains_key(tid.value()) && old_rels.contains_key(owners[tid.value()]) {
                    let q = owners[tid.value()];
                    let before = old_rels[q];
                    let after = final(self).threads_view()[q];
                    &&& r == thread_wait_report(before.threads_view(), before.exited_view(), tid.value())
                    &&& final(self).threads_view() == old_rels.insert(q, after)
                    &&& after.exited_view() == before.exited_view().remove(tid.value())
                    &&& after.threads_view() == before.threads_view()
                    &&& after.parent_view() == before.parent_view()
                    &&& final(self).owners_view() == (if r == Some(THREAD_WAIT_PENDING) {
                        owners
                    } else {
                        owners.remove(tid.value())
                    })
                } else {
                    r is None && final(self).same_tables(old(self))
                }
            }),
    {
        let owner = match self.thread_owner.get(tid.get_usize()) {
            Some(o) => o,
            None => {
                return None;
            },
        };
        let mut rel = match self.proc_threads.take(owner) {
            Some(rel) => rel,
            None => {
                assert(thread_rel_map_items(self.proc_threads) =~= thread_rel_map_items(old(self).proc_threads));
                return None;
            },
        };
        let r = rel.wait_thread(tid);
        self.proc_threads.put(owner, rel);
        proof {
            assert(thread_rel_map_items(self.proc_threads) =~= thread_rel_map_items(old(self).proc_threads).insert(
                owner,
                rel,
            ));
        }
        match r {
            Some(code) => {
                if code != THREAD_WAIT_PENDING {
                    self.thread_owner.take(tid.get_usize());
                }
                Some(code)
            },
            None => {
                self.thread_owner.take(tid.get_usize());
                None
            },
        }
    }

    /// The number of running threads of process `pid`; 0 for an unknown
    /// process.
    pub fn thread_count(&self, pid: ProcId) -> (r: usize)
        ensures
            r == (if self.threads_view().contains_key(pid.value()) {
                self.threads_view()[pid.value()].threads_view().len()
            } else {
                0
            }),
    {
        match self.proc_threads.get(pid.get_usize()) {
            Some(rel) => rel.thread_count(),
            None => 0,
        }
    }
}

} // verus!
