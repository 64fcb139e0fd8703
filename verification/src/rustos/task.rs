//! The entries of the kernel's tables: descriptors, files, pipes, signal
//! actions and tasks.

use vstd::prelude::*;

use super::{
    empty_context, TrapContext, FILE_DATA_SIZE, FILE_NAME_SIZE, MAX_FD, MAX_SIG, PIPE_DATA_SIZE,
};

verus! {

/// A file descriptor: its kind (`FD_*`), the file or pipe it refers to,
/// the offset in a file, and whether it may be read and written.
#[derive(Clone, Copy, Debug, PartialEq, Eq, Structural)]
pub struct FdEntry {
    pub kind: usize,
    pub file_index: usize,
    pub offset: usize,
    pub readable: usize,
    pub writable: usize,
}

/// An unused descriptor.
pub open spec fn empty_fd() -> FdEntry {
    FdEntry { kind: 0, file_index: 0, offset: 0, readable: 0, writable: 0 }
}

impl FdEntry {
    /// An unused descriptor.
    pub fn empty() -> (r: FdEntry)
        ensures
            r == empty_fd(),
    {
        FdEntry { kind: 0, file_index: 0, offset: 0, readable: 0, writable: 0 }
    }
}

/// An in-memory file: whether the slot is used, its length, its name.
#[derive(Clone, Copy)]
pub struct FileEntry {
    pub used: usize,
    pub len: usize,
    pub name_len: usize,
    pub name: [u8; FILE_NAME_SIZE],
    pub data: [u8; FILE_DATA_SIZE],
}

/// An unused file slot, all zero.
pub open spec fn empty_file() -> FileEntry {
    FileEntry {
        used: 0,
        len: 0,
        name_len: 0,
        name: vstd::array::spec_array_fill_for_copy_type::<u8, 32>(0),
        data: vstd::array::spec_array_fill_for_copy_type::<u8, 4096>(0),
    }
}

/// An unused task slot, all zero.
pub open spec fn empty_task() -> Task {
    Task {
        context: empty_context(),
        status: 0,
        exit_code: 0,
        pid: 0,
        parent_pid: 0,
        base: 0,
        phys_base: 0,
        program_end: 0,
        heap_base: 0,
        brk: 0,
        heap_limit: 0,
        stack_bottom: 0,
        stack_top: 0,
        fds: vstd::array::spec_array_fill_for_copy_type::<FdEntry, 16>(empty_fd()),
        signal_actions: vstd::array::spec_array_fill_for_copy_type::<SigAction, 32>(
            SigAction { handler: 0, mask: 0 },
        ),
        signal_mask: 0,
        signal_pending: 0,
        handling_signal: 0,
        saved_signal_context: empty_context(),
    }
}

impl FileEntry {
    /// An unused file slot, all zero.
    pub fn empty() -> (r: FileEntry)
        ensures
            r == empty_file(),
    {
        FileEntry { used: 0, len: 0, name_len: 0, name: [0u8; 32], data: [0u8; 4096] }
    }
}

/// A pipe: whether the slot is used, how many read and write ends are
/// open, and the buffered bytes `data[read_offset .. len]`.
#[derive(Clone, Copy)]
pub struct PipeEntry {
    pub used: usize,
    pub read_open: usize,
    pub write_open: usize,
    pub read_offset: usize,
    pub len: usize,
    pub data: [u8; PIPE_DATA_SIZE],
}

/// An unused pipe slot, all zero.
pub open spec fn empty_pipe() -> PipeEntry {
    PipeEntry {
        used: 0,
        read_open: 0,
        write_open: 0,
        read_offset: 0,
        len: 0,
        data: vstd::array::spec_array_fill_for_copy_type::<u8, 4096>(0),
    }
}

/// `t` with descriptor `fd` replaced by `e`.
pub open spec fn with_fd(t: Task, fd: int, e: FdEntry) -> Task {
    Task { fds: vstd::array::spec_array_update(t.fds, fd, e), ..t }
}

/// Replaces descriptor `fd` of `t` by `e`.
pub fn set_fd(t: &mut Task, fd: usize, e: FdEntry)
    requires
        fd < MAX_FD,
    ensures
        *final(t) == with_fd(*old(t), fd as int, e),
        final(t).fds@ == old(t).fds@.update(fd as int, e),
{
    t.fds[fd] = e;
    proof {
        broadcast use vstd::array::group_array_axioms;

        assert(t.fds =~= vstd::array::spec_array_update(old(t).fds, fd as int, e));
    }
}

/// `t` with the action of signal `sig` replaced by `a`.
pub open spec fn with_action(t: Task, sig: int, a: SigAction) -> Task {
    Task { signal_actions: vstd::array::spec_array_update(t.signal_actions, sig, a), ..t }
}

/// Replaces the action of signal `sig` of `t` by `a`.
pub fn set_action(t: &mut Task, sig: usize, a: SigAction)
    requires
        sig < MAX_SIG,
    ensures
        *final(t) == with_action(*old(t), sig as int, a),
{
    t.signal_actions[sig] = a;
    proof {
        broadcast use vstd::array::group_array_axioms;

        assert(t.signal_actions =~= vstd::array::spec_array_update(old(t).signal_actions, sig as int, a));
    }
}

impl PipeEntry {
    /// An unused pipe slot, all zero.
    pub fn empty() -> (r: PipeEntry)
        ensures
            r == empty_pipe(),
            r.data@ == Seq::new(PIPE_DATA_SIZE as nat, |i: int| 0u8),
    {
        PipeEntry {
            used: 0,
            read_open: 0,
            write_open: 0,
            read_offset: 0,
            len: 0,
            data: [0u8; 4096],
        }
    }
}

/// A signal action of a task: handler address (0 for none) and the mask
/// added while it runs.
#[derive(Clone, Copy, Debug, PartialEq, Eq, Structural)]
pub struct SigAction {
    pub handler: usize,
    pub mask: usize,
}

/// One process slot.
#[derive(Clone, Copy)]
pub struct Task {
    pub context: TrapContext,
    pub status: usize,
    pub exit_code: isize,
    pub pid: usize,
    pub parent_pid: usize,
    pub base: usize,
    pub phys_base: usize,
    pub program_end: usize,
    pub heap_base: usize,
    pub brk: usize,
    pub heap_limit: usize,
    pub stack_bottom: usize,
    pub stack_top: usize,
    pub fds: [FdEntry; MAX_FD],
    pub signal_actions: [SigAction; MAX_SIG],
    pub signal_mask: usize,
    pub signal_pending: usize,
    pub handling_signal: usize,
    pub saved_signal_context: TrapContext,
}

impl Task {
    /// An unused slot, all zero.
    pub fn empty() -> (r: Task)
        ensures
            r == empty_task(),
    {
        let fd = FdEntry::empty();
        let action = SigAction { handler: 0, mask: 0 };
        Task {
            context: TrapContext::empty(),
            status: 0,
            exit_code: 0,
            pid: 0,
            parent_pid: 0,
            base: 0,
            phys_base: 0,
            program_end: 0,
            heap_base: 0,
            brk: 0,
            heap_limit: 0,
            stack_bottom: 0,
            stack_top: 0,
            fds: [fd; 16],
            signal_actions: [action; 32],
            signal_mask: 0,
            signal_pending: 0,
            handling_signal: 0,
            saved_signal_context: TrapContext::empty(),
        }
    }
}

} // verus!
