//! Properties of the kernel's system calls that span calls.

use vstd::prelude::*;

use super::files::{file_read_len, file_write_len};
use super::kernel::pipe_ok;
use super::memory::put_bytes;
use super::paging::{user_l0_entry, user_va, USER_CODE_FLAGS};
use super::pipes::{pipe_after_read, pipe_read_result, pipe_write_result};
use super::kernel::{lemma_first_index_skip, first_index};
use super::process::{is_child, reaped};
use super::signals::{delivered, deliverable, has_signal, range_mask, signalled, stops_at};
use super::task::{FileEntry, PipeEntry, Task};
use super::{add_signed_spec, SIGKILL, MAX_SIG, TrapContext, page_ceil, page_floor, pte_spec, FILE_DATA_SIZE, PAGE_SIZE, PIPE_DATA_SIZE, USER_BASE};

verus! {

/// A pipe is first in, first out: a write that fits is taken whole, and
/// the bytes a reader then finds are the ones it found before followed by
/// the written ones.
pub proof fn lemma_pipe_fifo(p: PipeEntry, q: PipeEntry, d: Seq<u8>)
    requires
        pipe_ok(p),
        p.used != 0,
        p.read_open != 0,
        0 < d.len(),
        p.len + d.len() <= PIPE_DATA_SIZE,
        q == (PipeEntry { len: (p.len + d.len()) as usize, data: q.data, ..p }),
        q.data@ == put_bytes(p.data@, p.len as int, d),
    ensures
        pipe_write_result(p, d.len() as int) == d.len(),
        pipe_ok(q),
        q.data@.subrange(q.read_offset as int, q.len as int) == p.data@.subrange(
            p.read_offset as int,
            p.len as int,
        ) + d,
{
    assert(p.data@.len() == PIPE_DATA_SIZE);
    assert(q.data@.subrange(q.read_offset as int, q.len as int) =~= p.data@.subrange(
        p.read_offset as int,
        p.len as int,
    ) + d);
}

/// What was written to an empty pipe is read back whole by a read of its
/// length, which leaves the pipe empty.
pub proof fn lemma_pipe_write_then_read(p: PipeEntry, q: PipeEntry, d: Seq<u8>)
    requires
        pipe_ok(p),
        p.used != 0,
        p.read_open != 0,
        p.read_offset == p.len,
        0 < d.len(),
        p.len + d.len() <= PIPE_DATA_SIZE,
        q == (PipeEntry { len: (p.len + d.len()) as usize, data: q.data, ..p }),
        q.data@ == put_bytes(p.data@, p.len as int, d),
    ensures
        pipe_read_result(q, d.len() as int) == d.len(),
        q.data@.subrange(q.read_offset as int, q.read_offset + d.len()) == d,
        pipe_after_read(q, d.len() as int).len == 0,
        pipe_after_read(q, d.len() as int).read_offset == 0,
{
    lemma_pipe_fifo(p, q, d);
    assert(p.data@.subrange(p.read_offset as int, p.len as int) =~= Seq::<u8>::empty());
    assert(Seq::<u8>::empty() + d =~= d);
}

/// Bytes written to a file at an offset are read back from that offset:
/// the file is long enough, and its data there are the written bytes.
pub proof fn lemma_file_write_then_read(f: FileEntry, g: FileEntry, off: int, d: Seq<u8>)
    requires
        0 <= off <= FILE_DATA_SIZE,
        f.len <= FILE_DATA_SIZE,
        d.len() == file_write_len(off, d.len() as int),
        g.len == (if off + d.len() > f.len { (off + d.len()) as usize } else { f.len }),
        g.data@ == put_bytes(f.data@, off, d),
        f.data@.len() == FILE_DATA_SIZE,
    ensures
        file_read_len(g, off, d.len() as int) == d.len(),
        g.data@.subrange(off, off + d.len()) == d,
{
    assert(g.data@.subrange(off, off + d.len()) =~= d);
}

/// A child that a wait reaped is no longer a child: a second wait does
/// not find it.
pub proof fn lemma_reaped_is_gone(tasks: Seq<Task>, i: int, parent: usize, pid_arg: usize)
    requires
        0 <= i < tasks.len(),
    ensures
        !is_child(tasks.update(i, reaped(tasks[i])), parent, pid_arg)(i),
{
}

/// Moving the break by `delta` and then by `-delta` puts it back.
pub proof fn lemma_brk_round_trip(brk: usize, delta: isize)
    requires
        delta != isize::MIN,
        add_signed_spec(brk, delta) is Some,
    ensures
        add_signed_spec(add_signed_spec(brk, delta)->0, (-delta) as isize) == Some(brk),
{
}

/// Every page of a loaded program maps, writable and executable, to the
/// same place in the task's slot: entry `j` of the user table points
/// `j` pages past the start of the slot.
pub proof fn lemma_program_pages_map_to_slot(
    j: int,
    program_end: int,
    stack_bottom: int,
    stack_top: int,
    phys_base: int,
)
    requires
        0 <= j < 512,
        user_va(j) < page_ceil(program_end),
        page_ceil(program_end) <= page_floor(stack_bottom),
        phys_base % (PAGE_SIZE as int) == 0,
    ensures
        user_l0_entry(j, program_end, stack_bottom, stack_top, phys_base) == pte_spec(
            (phys_base + j * PAGE_SIZE) as usize,
            USER_CODE_FLAGS,
        ),
{
    assert(page_floor(USER_BASE as int) == USER_BASE);
    assert(page_floor(phys_base) == phys_base);
}


/// A signal sent to a task that has nothing else to deliver reaches the
/// handler registered for it: when the task next returns to user mode it
/// resumes at the handler, with its context saved, the action's mask
/// added and the signal no longer pending.
pub proof fn lemma_signal_reaches_handler(t: Task, s: int)
    requires
        1 <= s < MAX_SIG,
        s != SIGKILL,
        deliverable(t) == 0,
        !has_signal(t.signal_mask, s),
        t.signal_actions@[s].handler != 0,
    ensures
        delivered(signalled(t, s)).context == (TrapContext {
            sepc: t.signal_actions@[s].handler,
            ..t.context
        }),
        delivered(signalled(t, s)).saved_signal_context == t.context,
        delivered(signalled(t, s)).handling_signal == s,
        delivered(signalled(t, s)).signal_mask == t.signal_mask | t.signal_actions@[s].mask,
        !has_signal(delivered(signalled(t, s)).signal_pending, s),
{
    let u = signalled(t, s);
    let su = s as usize;
    let pend = t.signal_pending;
    let mask = t.signal_mask;
    assert(deliverable(u) == 1usize << su) by {
        assert(pend & !mask == 0 && mask & (1usize << su) == 0 && su < 32 ==> (pend | (1usize << su)) & !mask
            == 1usize << su) by (bit_vector);
    }
    assert forall|k: int| 1 <= k < s implies !#[trigger] stops_at(u)(k) by {
        let ku = k as usize;
        assert(ku < su && su < 32 ==> (1usize << su) & (1usize << ku) == 0) by (bit_vector);
    }
    lemma_first_index_skip(stops_at(u), 1, s, MAX_SIG as int);
    assert(has_signal(deliverable(u), s)) by {
        assert(su < 32 ==> (1usize << su) & (1usize << su) != 0) by (bit_vector);
    }
    assert(first_index(stops_at(u), s, MAX_SIG as int) == Some(s));
    let np = u.signal_pending & !(deliverable(u) & range_mask(s + 1));
    assert(!has_signal(np, s)) by {
        let up = u.signal_pending;
        if s + 1 >= 32 {
            assert(su == 31 ==> (up & !((1usize << su) & 0xFFFF_FFFEusize)) & (1usize << su) == 0) by (bit_vector);
        } else {
            assert(1 <= su < 31 ==> (up & !((1usize << su) & ((1usize << (su + 1) as usize) - 2) as usize)) & (
            1usize << su) == 0) by (bit_vector);
        }
    }
}

} // verus!
