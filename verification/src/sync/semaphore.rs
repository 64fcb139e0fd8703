//! A counting semaphore: free permits and a queue of waiters.

use vstd::prelude::*;

use crate::task_manage::ThreadId;
use std::collections::VecDeque;

verus! {

/// State of a counting semaphore.
pub struct SemaphoreState {
    permits: usize,
    waiters: VecDeque<ThreadId>,
}

impl SemaphoreState {
    /// Free permits.
    pub closed spec fn permits_view(&self) -> usize {
        self.permits
    }

    /// Threads waiting for a permit, in arrival order.
    pub closed spec fn waiters_view(&self) -> Seq<ThreadId> {
        self.waiters@
    }

    /// A semaphore with `initial` permits and no waiters.
    pub fn new(initial: usize) -> (r: Self)
        ensures
            r.permits_view() == initial,
            r.waiters_view() == Seq::<ThreadId>::empty(),
    {
        SemaphoreState { permits: initial, waiters: VecDeque::new() }
    }

    /// The number of free permits.
    pub fn permits(&self) -> (r: usize)
        ensures
            r == self.permits_view(),
    {
        self.permits
    }

    /// Whether a thread waits for a permit.
    pub fn has_waiters(&self) -> (r: bool)
        ensures
            r == (self.waiters_view().len() > 0),
    {
        self.waiters.len() > 0
    }

    /// `tid` takes a permit when one is free (true); otherwise it queues
    /// (false).
    pub fn down(&mut self, tid: ThreadId) -> (r: bool)
        ensures
            r == (old(self).permits_view() > 0),
            r ==> final(self).permits_view() == old(self).permits_view() - 1 && final(self).waiters_view() == old(self).waiters_view(),
            !r ==> final(self).permits_view() == old(self).permits_view() && final(self).waiters_view() == old(self).waiters_view().push(tid),
    {
        if self.permits > 0 {
            self.permits = self.permits - 1;
            true
        } else {
            self.waiters.push_back(tid);
            false
        }
    }

    /// Returns a permit: it goes straight to the oldest waiter, who is
    /// returned to be woken; with no waiter the count grows, so it must not
    /// be at its maximum then.
    pub fn up(&mut self) -> (r: Option<ThreadId>)
        requires
            old(self).waiters_view().len() == 0 ==> old(self).permits_view() < usize::MAX,
        ensures
            old(self).waiters_view().len() > 0 ==> {
                &&& r == Some(old(self).waiters_view()[0])
                &&& final(self).permits_view() == old(self).permits_view()
                &&& final(self).waiters_view() == old(self).waiters_view().drop_first()
            },
            old(self).waiters_view().len() == 0 ==> {
                &&& r is None
                &&& final(self).permits_view() == old(self).permits_view() + 1
                &&& final(self).waiters_view() == old(self).waiters_view()
            },
    {
        if let Some(waiter) = self.waiters.pop_front() {
            proof {
                assert(self.waiters@ =~= old(self).waiters_view().drop_first());
            }
            Some(waiter)
        } else {
            self.permits = self.permits + 1;
            None
        }
    }
}

/// While threads wait, no permit is free: a semaphore that starts with no
/// waiters keeps this through any `down` and `up`.
pub open spec fn semaphore_balanced(s: SemaphoreState) -> bool {
    s.waiters_view().len() > 0 ==> s.permits_view() == 0
}

/// `down` and `up` keep [`semaphore_balanced`].
pub proof fn lemma_semaphore_balance_kept(
    s0: SemaphoreState,
    s1: SemaphoreState,
    tid: ThreadId,
    took: bool,
    woken: Option<ThreadId>,
    downed: bool,
)
    requires
        semaphore_balanced(s0),
        downed ==> {
            &&& took == (s0.permits_view() > 0)
            &&& took ==> s1.permits_view() == s0.permits_view() - 1 && s1.waiters_view()
                == s0.waiters_view()
            &&& !took ==> s1.permits_view() == s0.permits_view() && s1.waiters_view()
                == s0.waiters_view().push(tid)
        },
        !downed ==> {
            &&& s0.waiters_view().len() > 0 ==> s1.permits_view() == s0.permits_view()
                && s1.waiters_view() == s0.waiters_view().drop_first()
            &&& s0.waiters_view().len() == 0 ==> s1.permits_view() == s0.permits_view() + 1
                && s1.waiters_view() == s0.waiters_view()
        },
    ensures
        semaphore_balanced(s1),
{
}

} // verus!
