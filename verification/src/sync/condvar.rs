//! A condition variable: the queue of threads waiting on it.

use vstd::prelude::*;

use crate::task_manage::ThreadId;
use std::collections::VecDeque;

verus! {

/// Threads waiting on a condition variable.
pub struct CondvarState {
    waiters: VecDeque<ThreadId>,
}

impl CondvarState {
    /// Waiting threads, in arrival order.
    pub closed spec fn waiters_view(&self) -> Seq<ThreadId> {
        self.waiters@
    }

    /// No waiter.
    pub fn new() -> (r: Self)
        ensures
            r.waiters_view() == Seq::<ThreadId>::empty(),
    {
        CondvarState { waiters: VecDeque::new() }
    }

    /// `tid` waits; it always blocks, so the result is false.
    pub fn wait_no_sched(&mut self, tid: ThreadId) -> (r: bool)
        ensures
            !r,
            final(self).waiters_view() == old(self).waiters_view().push(tid),
    {
        self.waiters.push_back(tid);
        false
    }

    /// Wakes the oldest waiter, if any.
    pub fn signal(&mut self) -> (r: Option<ThreadId>)
        ensures
            old(self).waiters_view().len() > 0 ==> r == Some(old(self).waiters_view()[0])
                && final(self).waiters_view() == old(self).waiters_view().drop_first(),
            old(self).waiters_view().len() == 0 ==> r is None && final(self).waiters_view()
                == old(self).waiters_view(),
    {
        let r = self.waiters.pop_front();
        proof {
            if old(self).waiters_view().len() > 0 {
                assert(self.waiters@ =~= old(self).waiters_view().drop_first());
            }
        }
        r
    }
}

} // verus!
