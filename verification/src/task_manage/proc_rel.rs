//! A process and its children: who still runs, and who exited with what.

use vstd::prelude::*;

use super::collections::{id_set_items, IdSet};
use super::id::ProcId;
use std::collections::VecDeque;

verus! {

/// Exit code reported while children run but none has exited.
pub const WAIT_CHILD_PENDING: isize = -1;

/// The id reported together with [`WAIT_CHILD_PENDING`].
pub const WAIT_SENTINEL_NUMBER: usize = usize::MAX - 1;

/// What waiting for any child reports, given the children still running
/// and the exits not yet reported: the oldest exit, else the pending
/// marker while a child runs, else nothing.
pub open spec fn wait_report(children: Set<usize>, exited: Seq<(ProcId, isize)>) -> Option<(ProcId, isize)> {
    if exited.len() > 0 {
        Some(exited[0])
    } else if children != Set::<usize>::empty() {
        Some((ProcId::from_usize_spec(WAIT_SENTINEL_NUMBER), WAIT_CHILD_PENDING))
    } else {
        None
    }
}

/// The relation of one process to its children.
pub struct ProcRel {
    parent: ProcId,
    children: IdSet,
    exited: VecDeque<(ProcId, isize)>,
}

impl ProcRel {
    /// The process.
    pub closed spec fn parent_view(&self) -> ProcId {
        self.parent
    }

    /// Numbers of the children still running.
    pub closed spec fn children_view(&self) -> Set<usize> {
        id_set_items(self.children)
    }

    /// Children that exited and were not reported yet, oldest first.
    pub closed spec fn exited_view(&self) -> Seq<(ProcId, isize)> {
        self.exited@
    }

    /// A process with no children.
    pub fn new(parent: ProcId) -> (r: Self)
        ensures
            r.parent_view() == parent,
            r.children_view() == Set::<usize>::empty(),
            r.exited_view() == Seq::<(ProcId, isize)>::empty(),
    {
        ProcRel { parent, children: IdSet::new(), exited: VecDeque::new() }
    }

    /// The process.
    pub fn parent(&self) -> (r: ProcId)
        ensures
            r == self.parent_view(),
    {
        self.parent
    }

    /// Records a running child.
    pub fn add_child(&mut self, child: ProcId)
        ensures
            final(self).children_view() == old(self).children_view().insert(child.value()),
            final(self).exited_view() == old(self).exited_view(),
            final(self).parent_view() == old(self).parent_view(),
    {
        self.children.insert(child.get_usize());
    }

    /// Records that a running child exited with `exit_code`; a process
    /// that is not a running child is ignored.
    pub fn del_child(&mut self, child: ProcId, exit_code: isize)
        ensures
            old(self).children_view().contains(child.value()) ==> {
                &&& final(self).children_view() == old(self).children_view().remove(child.value())
                &&& final(self).exited_view() == old(self).exited_view().push((child, exit_code))
            },
            !old(self).children_view().contains(child.value()) ==> {
                &&& final(self).children_view() == old(self).children_view()
                &&& final(self).exited_view() == old(self).exited_view()
            },
            final(self).parent_view() == old(self).parent_view(),
    {
        if self.children.remove(child.get_usize()) {
            self.exited.push_back((child, exit_code));
        }
    }

    /// Reports the oldest unreported exit, consuming it; while children
    /// run and none exited, reports the pending marker; with no children,
    /// nothing.
    pub fn wait_any_child(&mut self) -> (r: Option<(ProcId, isize)>)
        ensures
            r == wait_report(old(self).children_view(), old(self).exited_view()),
            old(self).exited_view().len() > 0 ==> final(self).exited_view() == old(self).exited_view().drop_first(),
            old(self).exited_view().len() == 0 ==> final(self).exited_view() == old(self).exited_view(),
            final(self).children_view() == old(self).children_view(),
            final(self).parent_view() == old(self).parent_view(),
    {
        if let Some(entry) = self.exited.pop_front() {
            proof {
                assert(self.exited@ =~= old(self).exited_view().drop_first());
            }
            return Some(entry);
        }
        if !self.children.is_empty() {
            return Some((ProcId::from_usize(WAIT_SENTINEL_NUMBER), WAIT_CHILD_PENDING));
        }
        None
    }

    /// Whether `child` is a running child.
    pub fn has_child(&self, child: ProcId) -> (r: bool)
        ensures
            r == self.children_view().contains(child.value()),
    {
        self.children.contains(child.get_usize())
    }

    /// The number of running children.
    pub fn running_children(&self) -> (r: usize)
        ensures
            r == self.children_view().len(),
    {
        self.children.len()
    }
}

/// A child that exits while no earlier exit is waiting is what the next
/// wait reports, and that wait consumes it; when it was the last child,
/// the wait after that reports nothing.
pub proof fn lemma_exit_then_wait(children: Set<usize>, child: ProcId, code: isize)
    requires
        children.contains(child.value()),
    ensures
        wait_report(children.remove(child.value()), seq![(child, code)]) == Some((child, code)),
        children == set![child.value()] ==> wait_report(
            children.remove(child.value()),
            seq![(child, code)].drop_first(),
        ) is None,
{
    if children == set![child.value()] {
        assert(children.remove(child.value()) =~= Set::<usize>::empty());
        assert(seq![(child, code)].drop_first() =~= Seq::<(ProcId, isize)>::empty());
    }
}

} // verus!
