//! Signals of the chapter-seven kernel: actions, the mask, sending, and
//! delivery on the way back to user mode.

use vstd::prelude::*;

use super::kernel::{
    first_index, in_slot, lemma_first_index_props, lemma_first_index_skip,
    lemma_user_range_in_slot, user_range_ok, Kernel,
};
use super::memory::{bytes_word, put_bytes, read_word, word_bytes, write_word};
use super::task::{set_action, with_action, SigAction, Task};
use super::{
    empty_context, TrapContext, MAX_SIG, MAX_TASKS, SIGKILL, SIGUSR1, TASK_EXITED, TASK_UNUSED,
    USER_BASE,
};

verus! {

/// The bits of signals `1 .. limit`, for `1 <= limit <= 32`.
pub open spec fn range_mask(limit: int) -> usize {
    if limit >= 32 {
        0xFFFF_FFFEusize
    } else {
        ((1usize << (limit as usize)) - 2) as usize
    }
}

/// Whether signal `s` is set in `bits`.
pub open spec fn has_signal(bits: usize, s: int) -> bool {
    bits & (1usize << (s as usize)) != 0
}

/// The pending signals of `t` that its mask lets through.
pub open spec fn deliverable(t: Task) -> usize {
    t.signal_pending & !t.signal_mask
}

/// Whether delivery stops at signal `s`: it is deliverable and has a
/// handler, or it is `SIGUSR1`.
pub open spec fn stops_at(t: Task) -> spec_fn(int) -> bool {
    |s: int| has_signal(deliverable(t), s) && (t.signal_actions@[s].handler != 0 || s == SIGUSR1)
}

/// `t` after its deliverable signals were looked at in order: each one
/// looked at is no longer pending; the first with a handler (unless
/// `SIGUSR1` without one came first) is handled: the context is saved,
/// the action's mask added, and the task resumes at the handler.
pub open spec fn delivered(t: Task) -> Task {
    let p = deliverable(t);
    match first_index(stops_at(t), 1, MAX_SIG as int) {
        None => Task { signal_pending: t.signal_pending & !(p & range_mask(32)), ..t },
        Some(s) => {
            let np = t.signal_pending & !(p & range_mask(s + 1));
            let a = t.signal_actions@[s];
            if a.handler == 0 {
                Task { signal_pending: np, ..t }
            } else {
                Task {
                    signal_pending: np,
                    saved_signal_context: t.context,
                    handling_signal: s as usize,
                    signal_mask: t.signal_mask | a.mask,
                    context: TrapContext { sepc: a.handler, ..t.context },
                    ..t
                }
            }
        },
    }
}

/// `t` after signal `sig` was sent to it: `SIGKILL` ends it with -1;
/// another becomes pending.
pub open spec fn signalled(t: Task, sig: int) -> Task {
    if sig == SIGKILL {
        Task { status: TASK_EXITED, exit_code: -1isize, ..t }
    } else {
        Task { signal_pending: t.signal_pending | (1usize << (sig as usize)), ..t }
    }
}

/// Whether task `i` is alive with pid `pid`.
pub open spec fn has_pid(tasks: Seq<Task>, pid: usize) -> spec_fn(int) -> bool {
    |i: int| tasks[i].status != TASK_UNUSED && tasks[i].pid == pid
}

/// `t` with no signal state: no actions, mask, pending signal or handler.
pub open spec fn signals_reset(t: Task) -> Task {
    Task {
        signal_actions: vstd::array::spec_array_fill_for_copy_type(SigAction { handler: 0, mask: 0 }),
        signal_mask: 0,
        signal_pending: 0,
        handling_signal: 0,
        saved_signal_context: empty_context(),
        ..t
    }
}

proof fn lemma_clear_step(old_pending: usize, p: usize, s: usize)
    requires
        1 <= s < 32,
    ensures
        has_signal(p, s as int) ==> (old_pending & !(p & range_mask(s as int))) & !(1usize << s)
            == old_pending & !(p & range_mask(s + 1)),
        !has_signal(p, s as int) ==> old_pending & !(p & range_mask(s as int)) == old_pending & !(p
            & range_mask(s + 1)),
{
    if s + 1 >= 32 {
        assert(s == 31 ==> ((1usize << s) - 2) as usize | (1usize << s) == 0xFFFF_FFFEusize) by (bit_vector);
        assert(s == 31 && p & (1usize << s) != 0 ==> (old_pending & !(p & ((1usize << s) - 2) as usize)) & !(
        1usize << s) == old_pending & !(p & 0xFFFF_FFFEusize)) by (bit_vector);
        assert(s == 31 && p & (1usize << s) == 0 ==> old_pending & !(p & ((1usize << s) - 2) as usize)
            == old_pending & !(p & 0xFFFF_FFFEusize)) by (bit_vector);
    } else {
        assert(1 <= s < 31 && p & (1usize << s) != 0 ==> (old_pending & !(p & ((1usize << s) - 2) as usize))
            & !(1usize << s) == old_pending & !(p & ((1usize << (s + 1) as usize) - 2) as usize)) by (bit_vector);
        assert(1 <= s < 31 && p & (1usize << s) == 0 ==> old_pending & !(p & ((1usize << s) - 2) as usize)
            == old_pending & !(p & ((1usize << (s + 1) as usize) - 2) as usize)) by (bit_vector);
    }
}

impl Kernel {
    /// Clears the signal state of task `index`.
    pub fn init_signal_state(&mut self, index: usize)
        requires
            old(self).wf(),
            index < MAX_TASKS,
        ensures
            final(self).wf(),
            final(self).tasks@ == old(self).tasks@.update(index as int, signals_reset(old(self).tasks@[index as int])),
            final(self).files@ == old(self).files@,
            final(self).pipes@ == old(self).pipes@,
            final(self).same_config(old(self)),
            final(self).same_tables(old(self)),
    {
        let mut t = self.tasks[index];
        let action = SigAction { handler: 0, mask: 0 };
        t.signal_actions = [action; 32];
        t.signal_mask = 0;
        t.signal_pending = 0;
        t.handling_signal = 0;
        t.saved_signal_context = TrapContext::empty();
        let ghost prev = *self;
        proof {
            assert(prev.tasks@[index as int].status != TASK_UNUSED ==> in_slot(prev.tasks@[index as int], prev.slot_size)
                && prev.tasks@[index as int].phys_base <= super::kernel::PHYS_LIMIT);
        }
        self.tasks.set(index, t);
        proof {
            self.lemma_task_update_wf(&prev, index as int);
        }
    }

    /// Whether `self` is `old` after the running task's mask became `mask`.
    pub open spec fn mask_outcome(&self, old: &Kernel, mask: usize) -> bool {
        &&& self.tasks@ == old.tasks@.update(
                    old.current as int,
                    Task { signal_mask: mask, ..old.cur() },
                )
        &&& self.files@ == old.files@
        &&& self.pipes@ == old.pipes@
        &&& self.same_config(old)
        &&& self.same_tables(old)
    }

    /// Sets the signal mask of the running task.
    pub fn sys_sigprocmask(&mut self, mask: usize) -> (r: isize)
        requires
            old(self).wf(),
            old(self).runnable(),
        ensures
            final(self).wf(),
            final(self).runnable(),
            final(self).current == old(self).current,
            r == 0,
            final(self).mask_outcome(old(self), mask),
    {
        let current = self.current;
        let mut t = self.tasks[current];
        t.signal_mask = mask;
        let ghost prev = *self;
        proof {
            assert(prev.tasks@[current as int].status != TASK_UNUSED ==> in_slot(prev.tasks@[current as int], prev.slot_size)
                && prev.tasks@[current as int].phys_base <= super::kernel::PHYS_LIMIT);
        }
        self.tasks.set(current, t);
        proof {
            self.lemma_task_update_wf(&prev, current as int);
        }
        0
    }

    /// Whether `self` is `old` after signal `signum` was sent to `pid`, which
    /// returned `r`.
    pub open spec fn kill_outcome(&self, old: &Kernel, pid: usize, signum: usize, r: isize) -> bool {
        &&& signum == 0 || signum >= MAX_SIG ==> r == -1 && self.unchanged(old)
        &&& !(signum == 0 || signum >= MAX_SIG) ==> match first_index(
                    has_pid(old.tasks@, pid),
                    0,
                    MAX_TASKS as int,
                ) {
                    None => r == -1 && self.unchanged(old),
                    Some(i) => {
                        &&& r == 0
                        &&& self.tasks@ == old.tasks@.update(
                            i,
                            signalled(old.tasks@[i], signum as int),
                        )
                        &&& self.files@ == old.files@
                        &&& self.pipes@ == old.pipes@
                        &&& self.same_config(old)
                        &&& self.same_tables(old)
                    },
                }
    }

    /// Sends signal `signum` to the lowest live task with pid `pid`; -1
    /// for a signal number out of range or no such task.
    pub fn sys_kill(&mut self, pid: usize, signum: usize) -> (r: isize)
        requires
            old(self).wf(),
            old(self).runnable(),
        ensures
            final(self).wf(),
            final(self).runnable(),
            final(self).current == old(self).current,
            final(self).kill_outcome(old(self), pid, signum, r),
    {
        if signum == 0 || signum >= MAX_SIG {
            return -1;
        }
        let ghost p = has_pid(self.tasks@, pid);
        let mut index: usize = 0;
        while index < MAX_TASKS
            invariant
                self.wf(),
                old(self).runnable(),
                self.unchanged(old(self)),
                1 <= signum < MAX_SIG,
                p == has_pid(self.tasks@, pid),
                index <= MAX_TASKS,
                forall|k: int| 0 <= k < index ==> !#[trigger] p(k),
            decreases MAX_TASKS - index,
        {
            let matches = self.tasks[index].status != TASK_UNUSED && self.tasks[index].pid == pid;
            if matches {
                proof {
                    lemma_first_index_skip(p, 0, index as int, MAX_TASKS as int);
                }
                let mut t = self.tasks[index];
                if signum == SIGKILL {
                    t.status = TASK_EXITED;
                    t.exit_code = -1;
                } else {
                    t.signal_pending = t.signal_pending | (1usize << signum);
                }
                let ghost prev = *self;
                proof {
                    prev.lemma_task_in_slot(index as int);
                }
                self.tasks.set(index, t);
                proof {
                    self.lemma_task_update_wf(&prev, index as int);
                }
                return 0;
            }
            index = index + 1;
        }
        proof {
            lemma_first_index_skip(p, 0, index as int, MAX_TASKS as int);
        }
        -1
    }

    /// Whether `self` is `old` after the running task returned from a handler.
    pub open spec fn sigreturn_outcome(&self, old: &Kernel) -> bool {
        &&& self.tasks@ == old.tasks@.update(
                    old.current as int,
                    Task { context: old.cur().saved_signal_context, handling_signal: 0, ..old.cur() },
                )
        &&& self.files@ == old.files@
        &&& self.pipes@ == old.pipes@
        &&& self.same_config(old)
        &&& self.same_tables(old)
    }

    /// Returns from a signal handler: the context saved when it was
    /// entered comes back, and no signal is being handled.
    pub fn sys_sigreturn(&mut self)
        requires
            old(self).wf(),
            old(self).runnable(),
        ensures
            final(self).wf(),
            final(self).runnable(),
            final(self).current == old(self).current,
            final(self).sigreturn_outcome(old(self)),
    {
        let current = self.current;
        let mut t = self.tasks[current];
        t.context = t.saved_signal_context;
        t.handling_signal = 0;
        let ghost prev = *self;
        proof {
            assert(prev.tasks@[current as int].status != TASK_UNUSED ==> in_slot(prev.tasks@[current as int], prev.slot_size)
                && prev.tasks@[current as int].phys_base <= super::kernel::PHYS_LIMIT);
        }
        self.tasks.set(current, t);
        proof {
            self.lemma_task_update_wf(&prev, current as int);
        }
    }

    /// Whether `self` is `old` after the running task's signals were delivered.
    pub open spec fn deliver_outcome(&self, old: &Kernel) -> bool {
        &&& old.cur().handling_signal != 0 ==> self.unchanged(old)
        &&& old.cur().handling_signal == 0 ==> self.tasks@ == old.tasks@.update(
                    old.current as int,
                    delivered(old.cur()),
                )
        &&& self.files@ == old.files@
        &&& self.pipes@ == old.pipes@
        &&& self.same_config(old)
        &&& self.same_tables(old)
    }

    /// Delivers the running task's signals before it resumes, unless it
    /// is in a handler already.
    pub fn deliver_pending_signal(&mut self)
        requires
            old(self).wf(),
            old(self).runnable(),
        ensures
            final(self).wf(),
            final(self).runnable(),
            final(self).current == old(self).current,
            final(self).deliver_outcome(old(self)),
    {
        let current = self.current;
        let mut t = self.tasks[current];
        let ghost t0 = t;
        if t.handling_signal != 0 {
            return;
        }
        let pending = t.signal_pending & !t.signal_mask;
        let ghost stop = stops_at(t0);
        proof {
            lemma_first_index_props(stop, 1, MAX_SIG as int);
        }
        proof {
            assert(((1usize << 1usize) - 2) as usize == 0usize) by (bit_vector);
            let x = t0.signal_pending;
            assert(x & !(pending & 0usize) == x) by (bit_vector);
        }
        let mut signum: usize = 1;
        let mut done = false;
        while !done && signum < MAX_SIG
            invariant
                1 <= signum <= MAX_SIG,
                pending == deliverable(t0),
                stop == stops_at(t0),
                !done ==> t == (Task { signal_pending: t.signal_pending, ..t0 }),
                !done ==> t.signal_pending == t0.signal_pending & !(pending & range_mask(signum as int)),
                !done ==> forall|k: int| 1 <= k < signum ==> !#[trigger] stop(k),
                done ==> t == delivered(t0),
            decreases MAX_SIG - signum, (if done { 0int } else { 1int }),
        {
            proof {
                lemma_clear_step(t0.signal_pending, pending, signum);
            }
            if pending & (1usize << signum) == 0 {
                signum = signum + 1;
            } else {
                let action = t.signal_actions[signum];
                t.signal_pending = t.signal_pending & !(1usize << signum);
                if action.handler == 0 {
                    if signum == SIGUSR1 {
                        proof {
                            lemma_first_index_skip(stop, 1, signum as int, MAX_SIG as int);
                        }
                        done = true;
                    } else {
                        signum = signum + 1;
                    }
                } else {
                    proof {
                        lemma_first_index_skip(stop, 1, signum as int, MAX_SIG as int);
                    }
                    t.saved_signal_context = t.context;
                    t.handling_signal = signum;
                    t.signal_mask = t.signal_mask | action.mask;
                    t.context.sepc = action.handler;
                    done = true;
                }
            }
        }
        proof {
            if !done {
                lemma_first_index_skip(stop, 1, MAX_SIG as int, MAX_SIG as int);
            }
        }
        assert(t == delivered(t0));
        let ghost prev = *self;
        proof {
            assert(prev.tasks@[current as int].status != TASK_UNUSED ==> in_slot(prev.tasks@[current as int], prev.slot_size)
                && prev.tasks@[current as int].phys_base <= super::kernel::PHYS_LIMIT);
        }
        self.tasks.set(current, t);
        proof {
            self.lemma_task_update_wf(&prev, current as int);
        }
    }

    /// Whether `self` and `mem` are `old` and `old_mem` after a
    /// `sigaction` for signal `signum` that returned `r`: the old action is
    /// written at `old_action_ptr` unless it is null, then the action at
    /// `action_ptr`, unless it is null, is read and installed.
    pub open spec fn sigaction_outcome(
        &self,
        old: &Kernel,
        old_mem: Seq<u8>,
        mem: Seq<u8>,
        signum: usize,
        action_ptr: usize,
        old_action_ptr: usize,
        r: isize,
    ) -> bool {
        let t = old.cur();
        let a = t.signal_actions@[signum as int];
        let at = old_action_ptr - USER_BASE;
        let mem1 = if old_action_ptr != 0 {
            put_bytes(put_bytes(old_mem, at, word_bytes(a.handler as u64)), at + 8, word_bytes(a.mask as u64))
        } else {
            old_mem
        };
        let from = action_ptr - USER_BASE;
        if signum == 0 || signum >= MAX_SIG || signum == SIGKILL {
            r == -1 && self.unchanged(old) && mem == old_mem
        } else if old_action_ptr != 0 && !user_range_ok(t, old_action_ptr as int, 16) {
            r == -1 && self.unchanged(old) && mem == old_mem
        } else if action_ptr != 0 && !user_range_ok(t, action_ptr as int, 16) {
            r == -1 && self.unchanged(old) && mem == mem1
        } else if action_ptr == 0 {
            r == 0 && self.unchanged(old) && mem == mem1
        } else {
            &&& r == 0
            &&& mem == mem1
            &&& self.tasks@ == old.tasks@.update(
                old.current as int,
                with_action(
                    t,
                    signum as int,
                    SigAction {
                        handler: bytes_word(mem1.subrange(from, from + 8)) as usize,
                        mask: bytes_word(mem1.subrange(from + 8, from + 16)) as usize,
                    },
                ),
            )
            &&& self.files@ == old.files@
            &&& self.pipes@ == old.pipes@
            &&& self.same_config(old)
            &&& self.same_tables(old)
        }
    }

    /// Writes the running task's action for `signum` at `old_action_ptr`
    /// and installs the one at `action_ptr`, either skipped when null; -1
    /// for a signal that cannot be caught or a buffer not the task's.
    pub fn sys_sigaction(
        &mut self,
        mem: &mut Vec<u8>,
        signum: usize,
        action_ptr: usize,
        old_action_ptr: usize,
    ) -> (r: isize)
        requires
            old(self).wf(),
            old(self).runnable(),
            old(mem)@.len() == old(self).slot_size,
        ensures
            final(self).wf(),
            final(self).runnable(),
            final(self).current == old(self).current,
            final(mem)@.len() == old(mem)@.len(),
            final(self).sigaction_outcome(old(self), old(mem)@, final(mem)@, signum, action_ptr, old_action_ptr, r),
    {
        let ghost t = self.cur();
        if signum == 0 || signum >= MAX_SIG || signum == SIGKILL {
            return -1;
        }
        let current = self.current;
        let old_action = self.tasks[current].signal_actions[signum];
        if old_action_ptr != 0 {
            if !self.valid_user_range(old_action_ptr, 16) {
                return -1;
            }
            proof {
                lemma_user_range_in_slot(t, self.slot_size, old_action_ptr as int, 16);
            }
            let at = old_action_ptr - USER_BASE;
            write_word(mem, at, old_action.handler as u64);
            write_word(mem, at + 8, old_action.mask as u64);
        }
        if action_ptr != 0 {
            if !self.valid_user_range(action_ptr, 16) {
                return -1;
            }
            proof {
                lemma_user_range_in_slot(t, self.slot_size, action_ptr as int, 16);
            }
            let from = action_ptr - USER_BASE;
            let handler = read_word(mem, from) as usize;
            let mask = read_word(mem, from + 8) as usize;
            let mut task = self.tasks[current];
            set_action(&mut task, signum, SigAction { handler, mask });
            let ghost prev = *self;
            self.tasks.set(current, task);
            proof {
                self.lemma_task_update_wf(&prev, current as int);
            }
        }
        0
    }
}

} // verus!
