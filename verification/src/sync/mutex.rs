//! A blocking mutex: an owner and a queue of waiters.

use vstd::prelude::*;

use crate::task_manage::ThreadId;
use std::collections::VecDeque;

verus! {

/// State of a blocking mutex.
pub struct MutexState {
    owner: Option<ThreadId>,
    waiters: VecDeque<ThreadId>,
}

impl MutexState {
    /// The thread holding the mutex.
    pub closed spec fn owner_view(&self) -> Option<ThreadId> {
        self.owner
    }

    /// Threads blocked on the mutex, in arrival order.
    pub closed spec fn waiters_view(&self) -> Seq<ThreadId> {
        self.waiters@
    }

    /// An unlocked mutex with no waiters.
    pub fn new() -> (r: Self)
        ensures
            r.owner_view() is None,
            r.waiters_view() == Seq::<ThreadId>::empty(),
    {
        MutexState { owner: None, waiters: VecDeque::new() }
    }

    /// `tid` asks for the mutex: it gets it when free (true), else it
    /// queues behind the other waiters (false).
    pub fn lock(&mut self, tid: ThreadId) -> (r: bool)
        ensures
            r == old(self).owner_view() is None,
            r ==> final(self).owner_view() == Some(tid) && final(self).waiters_view() == old(self).waiters_view(),
            !r ==> final(self).owner_view() == old(self).owner_view() && final(self).waiters_view()
                == old(self).waiters_view().push(tid),
    {
        if self.owner.is_none() {
            self.owner = Some(tid);
            true
        } else {
            self.waiters.push_back(tid);
            false
        }
    }

    /// Releases the mutex: it passes to the oldest waiter, who is returned
    /// to be woken; with no waiter it becomes free. Unlocking a free mutex
    /// does nothing.
    pub fn unlock(&mut self) -> (r: Option<ThreadId>)
        ensures
            old(self).owner_view() is None ==> r is None && final(self).owner_view() is None
                && final(self).waiters_view() == old(self).waiters_view(),
            old(self).owner_view() is Some && old(self).waiters_view().len() > 0 ==> {
                &&& r == Some(old(self).waiters_view()[0])
                &&& final(self).owner_view() == r
                &&& final(self).waiters_view() == old(self).waiters_view().drop_first()
            },
            old(self).owner_view() is Some && old(self).waiters_view().len() == 0 ==> {
                &&& r is None
                &&& final(self).owner_view() is None
                &&& final(self).waiters_view() == old(self).waiters_view()
            },
    {
        if self.owner.is_none() {
            return None;
        }
        if let Some(waiter) = self.waiters.pop_front() {
            proof {
                assert(self.waiters@ =~= old(self).waiters_view().drop_first());
            }
            self.owner = Some(waiter);
            Some(waiter)
        } else {
            self.owner = None;
            None
        }
    }
}

} // verus!
