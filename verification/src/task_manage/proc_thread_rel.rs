//! A process and its threads: who still runs, and who exited with what.

use vstd::prelude::*;

use super::collections::{id_map_items, id_set_items, IdMap, IdSet};
use super::id::{ProcId, ThreadId};

verus! {

/// Exit code reported for a thread that still runs.
pub const THREAD_WAIT_PENDING: isize = -2;

/// What waiting for thread `tid` reports: its exit code when it exited
/// unreported, the pending code while it runs, else nothing.
pub open spec fn thread_wait_report(threads: Set<usize>, exited: Map<usize, isize>, tid: usize) -> Option<isize> {
    if exited.contains_key(tid) {
        Some(exited[tid])
    } else if threads.contains(tid) {
        Some(THREAD_WAIT_PENDING)
    } else {
        None
    }
}

/// The relation of one process to its threads.
pub struct ProcThreadRel {
    parent: ProcId,
    threads: IdSet,
    exited: IdMap,
}

impl ProcThreadRel {
    /// The process.
    pub closed spec fn parent_view(&self) -> ProcId {
        self.parent
    }

    /// Numbers of the threads still running.
    pub closed spec fn threads_view(&self) -> Set<usize> {
        id_set_items(self.threads)
    }

    /// Exit codes of threads that exited and were not waited for.
    pub closed spec fn exited_view(&self) -> Map<usize, isize> {
        id_map_items(self.exited)
    }

    /// A process with no threads.
    pub fn new(parent: ProcId) -> (r: Self)
        ensures
            r.parent_view() == parent,
            r.threads_view() == Set::<usize>::empty(),
            r.exited_view() == Map::<usize, isize>::empty(),
    {
        let r = ProcThreadRel { parent, threads: IdSet::new(), exited: IdMap::new() };
        proof {
            assert(r.exited_view() =~= Map::<usize, isize>::empty());
        }
        r
    }

    /// The process.
    pub fn parent(&self) -> (r: ProcId)
        ensures
            r == self.parent_view(),
    {
        self.parent
    }

    /// Records a running thread.
    pub fn add_thread(&mut self, tid: ThreadId)
        ensures
            final(self).threads_view() == old(self).threads_view().insert(tid.value()),
            final(self).exited_view() == old(self).exited_view(),
            final(self).parent_view() == old(self).parent_view(),
    {
        self.threads.insert(tid.get_usize());
    }

    /// Records that a running thread exited with `exit_code`; a thread that
    /// is not running is ignored.
    pub fn del_thread(&mut self, tid: ThreadId, exit_code: isize)
        ensures
            old(self).threads_view().contains(tid.value()) ==> {
                &&& final(self).threads_view() == old(self).threads_view().remove(tid.value())
                &&& final(self).exited_view() == old(self).exited_view().insert(tid.value(), exit_code)
            },
            !old(self).threads_view().contains(tid.value()) ==> {
                &&& final(self).threads_view() == old(self).threads_view()
                &&& final(self).exited_view() == old(self).exited_view()
            },
            final(self).parent_view() == old(self).parent_view(),
    {
        if self.threads.remove(tid.get_usize()) {
            self.exited.insert(tid.get_usize(), exit_code);
        }
    }

    /// Waits for `tid`: its exit code (consumed) when it exited, the
    /// pending code while it runs, else nothing.
    pub fn wait_thread(&mut self, tid: ThreadId) -> (r: Option<isize>)
        ensures
            r == thread_wait_report(old(self).threads_view(), old(self).exited_view(), tid.value()),
            final(self).exited_view() == old(self).exited_view().remove(tid.value()),
            final(self).threads_view() == old(self).threads_view(),
            final(self).parent_view() == old(self).parent_view(),
    {
        if let Some(code) = self.exited.remove(tid.get_usize()) {
            return Some(code);
        }
        if self.threads.contains(tid.get_usize()) {
            return Some(THREAD_WAIT_PENDING);
        }
        None
    }

    /// The number of running threads.
    pub fn thread_count(&self) -> (r: usize)
        ensures
            r == self.threads_view().len(),
    {
        self.threads.len()
    }
}

/// A thread that exits is reported with its exit code by the next wait for
/// it, and by no wait after that.
pub proof fn lemma_thread_exit_then_wait(
    threads: Set<usize>,
    exited: Map<usize, isize>,
    tid: usize,
    code: isize,
)
    requires
        threads.contains(tid),
    ensures
        thread_wait_report(threads.remove(tid), exited.insert(tid, code), tid) == Some(code),
        thread_wait_report(threads.remove(tid), exited.insert(tid, code).remove(tid), tid) is None,
{
}

} // verus!
