use rcore_os::rustos::kernel::{Effect, Kernel};
use rcore_os::rustos::{
    pte, FD_STDIN, FD_STDOUT, INITPROC_APP, MAX_FD, OPEN_CREATE, OPEN_RDWR, PROCESS_BASE,
    SIGUSR1, SYSCALL_BRK, SYSCALL_CLOCK_GETTIME, SYSCALL_CLONE, SYSCALL_CLOSE, SYSCALL_EXECVE,
    SYSCALL_EXIT, SYSCALL_GETPID, SYSCALL_KILL, SYSCALL_OPENAT, SYSCALL_PIPE2, SYSCALL_READ,
    SYSCALL_RT_SIGACTION, SYSCALL_RT_SIGRETURN, SYSCALL_SCHED_YIELD, SYSCALL_WAIT4, SYSCALL_WRITE,
    TASK_EXITED, TASK_FAULTED, TASK_READY, TASK_RUNNING, TASK_UNUSED, USER_BASE,
};

const SLOT: usize = 0x20_0000;
const ROOT: usize = 0x8100_0000;
const L1: usize = 0x8106_0000;
const L0: usize = 0x810c_0000;
const DATA: usize = USER_BASE + 0x1000;

fn boot() -> (Kernel, Vec<u8>, Vec<Effect>) {
    let mut k = Kernel::new(SLOT, 29, ROOT, L1, L0);
    let mut fx = Vec::new();
    assert!(k.init_tasks(&mut fx, 0));
    k.run_first_task(&mut fx);
    (k, vec![0u8; SLOT], fx)
}

fn put(mem: &mut Vec<u8>, addr: usize, bytes: &[u8]) {
    let at = addr - USER_BASE;
    mem[at..at + bytes.len()].copy_from_slice(bytes);
}

fn get(mem: &Vec<u8>, addr: usize, len: usize) -> Vec<u8> {
    let at = addr - USER_BASE;
    mem[at..at + len].to_vec()
}

fn word(mem: &Vec<u8>, addr: usize) -> usize {
    let at = addr - USER_BASE;
    let mut b = [0u8; 8];
    b.copy_from_slice(&mem[at..at + 8]);
    u64::from_le_bytes(b) as usize
}

fn call(k: &mut Kernel, mem: &mut Vec<u8>, fx: &mut Vec<Effect>, n: usize, args: [usize; 3]) -> (Option<usize>, isize) {
    let cur = k.current;
    k.tasks[cur].context.x[17] = n;
    k.tasks[cur].context.x[10] = args[0];
    k.tasks[cur].context.x[11] = args[1];
    k.tasks[cur].context.x[12] = args[2];
    let r = k.handle_user_ecall(mem, fx, 0);
    (r, k.tasks[cur].context.x[10] as isize)
}

fn satp(root: usize) -> u64 {
    (8u64 << 60) | ((root as u64) >> 12)
}

#[test]
fn boot_loads_initproc_into_slot_zero() {
    let (k, _mem, fx) = boot();
    assert_eq!(
        fx,
        vec![
            Effect::DisablePaging,
            Effect::LoadApp { app: INITPROC_APP, phys_base: PROCESS_BASE },
            Effect::Activate(satp(ROOT)),
        ]
    );
    let t = &k.tasks[0];
    assert_eq!(t.status, TASK_RUNNING);
    assert_eq!(t.pid, 1);
    assert_eq!(t.parent_pid, 0);
    assert_eq!(t.context.sepc, USER_BASE);
    assert_eq!(t.context.x[2], USER_BASE + SLOT);
    assert_eq!(t.program_end, USER_BASE + 0x80000);
    assert_eq!(t.brk, USER_BASE + 0x80000);
    assert_eq!(t.stack_bottom, USER_BASE + SLOT - 0x4000);
    assert_eq!(t.fds[0].kind, FD_STDIN);
    assert_eq!(t.fds[1].kind, FD_STDOUT);
    assert_eq!(t.fds[2].kind, FD_STDOUT);
    assert_eq!(t.fds[3].kind, 0);
    assert_eq!(k.tasks[1].status, TASK_UNUSED);
}

#[test]
fn boot_without_applications_shuts_down() {
    let mut k = Kernel::new(SLOT, 0, ROOT, L1, L0);
    let mut fx = Vec::new();
    assert!(!k.init_tasks(&mut fx, 0));
    assert!(fx.is_empty());
    assert_eq!(k.tasks[0].status, TASK_UNUSED);
}

#[test]
fn program_pages_map_to_the_slot() {
    let (k, _mem, _fx) = boot();
    assert_eq!(k.l0_pt[0][0], pte(PROCESS_BASE, 0xde));
    assert_eq!(k.l0_pt[0][5], pte(PROCESS_BASE + 5 * 0x1000, 0xde));
    assert_eq!(k.l0_pt[0][0x80], 0);
    assert_eq!(k.l0_pt[0][511], pte(PROCESS_BASE + 511 * 0x1000, 0xd6));
    assert_eq!(k.l1_pt[0][48], pte(L0, 0));
    assert_eq!(k.l1_pt[0][0], pte(0x8000_0000, 0xce));
    assert_eq!(k.l1_pt[0][256], 0);
    assert_eq!(k.root_pt[0][2], pte(L1, 0));
    assert_eq!(k.root_pt[0][3], 0);
}

#[test]
fn write_to_console_emits_bytes_and_advances_pc() {
    let (mut k, mut mem, mut fx) = boot();
    fx.clear();
    put(&mut mem, DATA, b"hi");
    let (r, ret) = call(&mut k, &mut mem, &mut fx, SYSCALL_WRITE, [1, DATA, 2]);
    assert_eq!(r, Some(0));
    assert_eq!(ret, 2);
    assert_eq!(fx, vec![Effect::PutChar(b'h'), Effect::PutChar(b'i')]);
    assert_eq!(k.tasks[0].context.sepc, USER_BASE + 4);
}

#[test]
fn write_outside_the_task_fails() {
    let (mut k, mut mem, mut fx) = boot();
    fx.clear();
    let (_, ret) = call(&mut k, &mut mem, &mut fx, SYSCALL_WRITE, [1, 0x1000, 2]);
    assert_eq!(ret, -1);
    let heap_end = k.tasks[0].brk;
    let (_, ret) = call(&mut k, &mut mem, &mut fx, SYSCALL_WRITE, [1, heap_end, 1]);
    assert_eq!(ret, -1);
    assert!(fx.is_empty());
}

#[test]
fn file_written_is_read_back_after_reopen() {
    let (mut k, mut mem, mut fx) = boot();
    put(&mut mem, DATA, b"notes\0");
    let (_, fd) = call(&mut k, &mut mem, &mut fx, SYSCALL_OPENAT, [DATA, OPEN_CREATE | OPEN_RDWR, 0]);
    assert_eq!(fd, 3);
    put(&mut mem, DATA + 0x100, b"data");
    let (_, n) = call(&mut k, &mut mem, &mut fx, SYSCALL_WRITE, [3, DATA + 0x100, 4]);
    assert_eq!(n, 4);
    let (_, r) = call(&mut k, &mut mem, &mut fx, SYSCALL_CLOSE, [3, 0, 0]);
    assert_eq!(r, 0);
    let (_, r) = call(&mut k, &mut mem, &mut fx, SYSCALL_CLOSE, [3, 0, 0]);
    assert_eq!(r, -1);
    let (_, fd) = call(&mut k, &mut mem, &mut fx, SYSCALL_OPENAT, [DATA, 0, 0]);
    assert_eq!(fd, 3);
    let (_, n) = call(&mut k, &mut mem, &mut fx, SYSCALL_READ, [3, DATA + 0x200, 16]);
    assert_eq!(n, 4);
    assert_eq!(get(&mem, DATA + 0x200, 4), b"data".to_vec());
    let (_, n) = call(&mut k, &mut mem, &mut fx, SYSCALL_READ, [3, DATA + 0x200, 16]);
    assert_eq!(n, 0);
    let (_, w) = call(&mut k, &mut mem, &mut fx, SYSCALL_WRITE, [3, DATA + 0x100, 4]);
    assert_eq!(w, -1);
}

#[test]
fn open_of_a_missing_file_without_create_fails() {
    let (mut k, mut mem, mut fx) = boot();
    put(&mut mem, DATA, b"missing\0");
    let (_, fd) = call(&mut k, &mut mem, &mut fx, SYSCALL_OPENAT, [DATA, OPEN_RDWR, 0]);
    assert_eq!(fd, -1);
    put(&mut mem, DATA, b"\0");
    let (_, fd) = call(&mut k, &mut mem, &mut fx, SYSCALL_OPENAT, [DATA, OPEN_CREATE, 0]);
    assert_eq!(fd, -1);
}

#[test]
fn pipe_carries_bytes_in_order() {
    let (mut k, mut mem, mut fx) = boot();
    let (_, r) = call(&mut k, &mut mem, &mut fx, SYSCALL_PIPE2, [DATA, 0, 0]);
    assert_eq!(r, 0);
    let read_fd = word(&mem, DATA);
    let write_fd = word(&mem, DATA + 8);
    assert_eq!((read_fd, write_fd), (3, 4));
    put(&mut mem, DATA + 0x100, b"abc");
    let (_, n) = call(&mut k, &mut mem, &mut fx, SYSCALL_WRITE, [write_fd, DATA + 0x100, 3]);
    assert_eq!(n, 3);
    put(&mut mem, DATA + 0x100, b"de");
    let (_, n) = call(&mut k, &mut mem, &mut fx, SYSCALL_WRITE, [write_fd, DATA + 0x100, 2]);
    assert_eq!(n, 2);
    let (_, n) = call(&mut k, &mut mem, &mut fx, SYSCALL_READ, [read_fd, DATA + 0x200, 4]);
    assert_eq!(n, 4);
    assert_eq!(get(&mem, DATA + 0x200, 4), b"abcd".to_vec());
    let (_, n) = call(&mut k, &mut mem, &mut fx, SYSCALL_READ, [read_fd, DATA + 0x200, 4]);
    assert_eq!(n, 1);
    assert_eq!(get(&mem, DATA + 0x200, 1), b"e".to_vec());
    let (_, n) = call(&mut k, &mut mem, &mut fx, SYSCALL_READ, [read_fd, DATA + 0x200, 4]);
    assert_eq!(n, -2);
    let (_, r) = call(&mut k, &mut mem, &mut fx, SYSCALL_CLOSE, [write_fd, 0, 0]);
    assert_eq!(r, 0);
    let (_, n) = call(&mut k, &mut mem, &mut fx, SYSCALL_READ, [read_fd, DATA + 0x200, 4]);
    assert_eq!(n, 0);
    let (_, r) = call(&mut k, &mut mem, &mut fx, SYSCALL_CLOSE, [read_fd, 0, 0]);
    assert_eq!(r, 0);
    assert_eq!(k.pipes[0].used, 0);
}

#[test]
fn pipe_refuses_writes_when_full_or_without_reader() {
    let (mut k, mut mem, mut fx) = boot();
    call(&mut k, &mut mem, &mut fx, SYSCALL_PIPE2, [DATA, 0, 0]);
    let (_, n) = call(&mut k, &mut mem, &mut fx, SYSCALL_WRITE, [4, DATA + 0x1000, 5000]);
    assert_eq!(n, 4096);
    let (_, n) = call(&mut k, &mut mem, &mut fx, SYSCALL_WRITE, [4, DATA + 0x1000, 1]);
    assert_eq!(n, -2);
    call(&mut k, &mut mem, &mut fx, SYSCALL_CLOSE, [3, 0, 0]);
    let (_, n) = call(&mut k, &mut mem, &mut fx, SYSCALL_WRITE, [4, DATA + 0x1000, 1]);
    assert_eq!(n, -1);
}

#[test]
fn fork_exit_and_wait_report_the_child() {
    let (mut k, mut mem, mut fx) = boot();
    fx.clear();
    let (r, child_pid) = call(&mut k, &mut mem, &mut fx, SYSCALL_CLONE, [0, 0, 0]);
    assert_eq!(r, Some(0));
    assert_eq!(child_pid, 2);
    let child = &k.tasks[1];
    assert_eq!(child.status, TASK_READY);
    assert_eq!(child.parent_pid, 1);
    assert_eq!(child.context.x[10], 0);
    assert_eq!(child.context.sepc, USER_BASE + 4);
    assert_eq!(
        fx,
        vec![
            Effect::DisablePaging,
            Effect::CopyMemory { from: PROCESS_BASE, to: PROCESS_BASE + SLOT, len: SLOT },
            Effect::Activate(satp(ROOT)),
        ]
    );
    let (_, w) = call(&mut k, &mut mem, &mut fx, SYSCALL_WAIT4, [usize::MAX, 0, 0]);
    assert_eq!(w, -2);
    let (r, _) = call(&mut k, &mut mem, &mut fx, SYSCALL_SCHED_YIELD, [0, 0, 0]);
    assert_eq!(r, Some(1));
    assert_eq!(k.current, 1);
    assert_eq!(k.tasks[1].status, TASK_RUNNING);
    assert_eq!(k.tasks[0].status, TASK_READY);
    let mut child_mem = mem.clone();
    let (r, _) = call(&mut k, &mut child_mem, &mut fx, SYSCALL_EXIT, [7, 0, 0]);
    assert_eq!(r, Some(0));
    assert_eq!(k.tasks[1].status, TASK_EXITED);
    let (_, w) = call(&mut k, &mut mem, &mut fx, SYSCALL_WAIT4, [usize::MAX, DATA, 0]);
    assert_eq!(w, 2);
    assert_eq!(get(&mem, DATA, 4), 7i32.to_le_bytes().to_vec());
    assert_eq!(k.tasks[1].status, TASK_UNUSED);
    let (_, w) = call(&mut k, &mut mem, &mut fx, SYSCALL_WAIT4, [usize::MAX, DATA, 0]);
    assert_eq!(w, -1);
}

#[test]
fn brk_moves_within_the_heap_and_back() {
    let (mut k, mut mem, mut fx) = boot();
    let base = USER_BASE + 0x80000;
    let (_, old) = call(&mut k, &mut mem, &mut fx, SYSCALL_BRK, [0, 0, 0]);
    assert_eq!(old as usize, base);
    fx.clear();
    let (_, old) = call(&mut k, &mut mem, &mut fx, SYSCALL_BRK, [0x2000, 0, 0]);
    assert_eq!(old as usize, base);
    assert_eq!(fx, vec![Effect::DisablePaging, Effect::Activate(satp(ROOT))]);
    assert_eq!(k.tasks[0].brk, base + 0x2000);
    assert_eq!(k.l0_pt[0][0x80], pte(PROCESS_BASE + 0x80000, 0xd6));
    assert_eq!(k.l0_pt[0][0x81], pte(PROCESS_BASE + 0x81000, 0xd6));
    let (_, old) = call(&mut k, &mut mem, &mut fx, SYSCALL_BRK, [(-0x2000isize) as usize, 0, 0]);
    assert_eq!(old as usize, base + 0x2000);
    assert_eq!(k.tasks[0].brk, base);
    assert_eq!(k.l0_pt[0][0x80], 0);
    let (_, r) = call(&mut k, &mut mem, &mut fx, SYSCALL_BRK, [(-1isize) as usize, 0, 0]);
    assert_eq!(r, -1);
    let (_, r) = call(&mut k, &mut mem, &mut fx, SYSCALL_BRK, [SLOT, 0, 0]);
    assert_eq!(r, -1);
}

#[test]
fn signal_handler_runs_and_sigreturn_restores() {
    let (mut k, mut mem, mut fx) = boot();
    let handler = USER_BASE + 0x400;
    put(&mut mem, DATA, &(handler as u64).to_le_bytes());
    put(&mut mem, DATA + 8, &0u64.to_le_bytes());
    let (_, r) = call(&mut k, &mut mem, &mut fx, SYSCALL_RT_SIGACTION, [SIGUSR1, DATA, DATA + 16]);
    assert_eq!(r, 0);
    assert_eq!(word(&mem, DATA + 16), 0);
    assert_eq!(k.tasks[0].signal_actions[SIGUSR1].handler, handler);
    let (_, r) = call(&mut k, &mut mem, &mut fx, SYSCALL_RT_SIGACTION, [9, DATA, 0]);
    assert_eq!(r, -1);
    let (_, pid) = call(&mut k, &mut mem, &mut fx, SYSCALL_GETPID, [0, 0, 0]);
    assert_eq!(pid, 1);
    let before = k.tasks[0].context.sepc;
    let (r, _) = call(&mut k, &mut mem, &mut fx, SYSCALL_KILL, [1, SIGUSR1, 0]);
    assert_eq!(r, Some(0));
    assert_eq!(k.tasks[0].context.sepc, handler);
    assert_eq!(k.tasks[0].handling_signal, SIGUSR1);
    assert_eq!(k.tasks[0].signal_pending, 0);
    assert_eq!(k.tasks[0].saved_signal_context.sepc, before + 4);
    assert_eq!(k.tasks[0].saved_signal_context.x[10], 0);
    call(&mut k, &mut mem, &mut fx, SYSCALL_RT_SIGRETURN, [0, 0, 0]);
    assert_eq!(k.tasks[0].context.sepc, before + 4);
    assert_eq!(k.tasks[0].handling_signal, 0);
}

#[test]
fn kill_with_sigkill_ends_the_target() {
    let (mut k, mut mem, mut fx) = boot();
    call(&mut k, &mut mem, &mut fx, SYSCALL_CLONE, [0, 0, 0]);
    let (_, r) = call(&mut k, &mut mem, &mut fx, SYSCALL_KILL, [2, 9, 0]);
    assert_eq!(r, 0);
    assert_eq!(k.tasks[1].status, TASK_EXITED);
    assert_eq!(k.tasks[1].exit_code, -1);
    let (_, r) = call(&mut k, &mut mem, &mut fx, SYSCALL_KILL, [42, 9, 0]);
    assert_eq!(r, -1);
    let (_, r) = call(&mut k, &mut mem, &mut fx, SYSCALL_KILL, [1, 32, 0]);
    assert_eq!(r, -1);
}

#[test]
fn clock_advances_by_a_tenth_of_a_second() {
    let (mut k, mut mem, mut fx) = boot();
    let (_, r) = call(&mut k, &mut mem, &mut fx, SYSCALL_CLOCK_GETTIME, [0, DATA, 0]);
    assert_eq!(r, 0);
    assert_eq!((word(&mem, DATA), word(&mem, DATA + 8)), (0, 100_000));
    for _ in 0..9 {
        call(&mut k, &mut mem, &mut fx, SYSCALL_CLOCK_GETTIME, [0, DATA, 0]);
    }
    assert_eq!((word(&mem, DATA), word(&mem, DATA + 8)), (1, 0));
    let (_, r) = call(&mut k, &mut mem, &mut fx, SYSCALL_CLOCK_GETTIME, [0, DATA + 1, 0]);
    assert_eq!(r, -1);
}

#[test]
fn exec_loads_the_named_application() {
    let (mut k, mut mem, mut fx) = boot();
    put(&mut mem, DATA, b"user_shell");
    fx.clear();
    let (r, _) = call(&mut k, &mut mem, &mut fx, SYSCALL_EXECVE, [DATA, 10, 0]);
    assert_eq!(r, Some(0));
    assert_eq!(
        fx,
        vec![
            Effect::DisablePaging,
            Effect::LoadApp { app: 27, phys_base: PROCESS_BASE },
            Effect::Activate(satp(ROOT)),
        ]
    );
    assert_eq!(k.tasks[0].context.sepc, USER_BASE);
    assert_eq!(k.tasks[0].pid, 1);
    put(&mut mem, DATA, b"no_such_app");
    let (_, r) = call(&mut k, &mut mem, &mut fx, SYSCALL_EXECVE, [DATA, 11, 0]);
    assert_eq!(r, -1);
}

#[test]
fn unknown_system_call_returns_minus_one() {
    let (mut k, mut mem, mut fx) = boot();
    let (r, ret) = call(&mut k, &mut mem, &mut fx, 999, [0, 0, 0]);
    assert_eq!(r, Some(0));
    assert_eq!(ret, -1);
}

#[test]
fn trap_causes_switch_or_end_the_task() {
    let (mut k, mut mem, mut fx) = boot();
    let r = k.rust_trap(&mut mem, &mut fx, 1u64 << 63, 0);
    assert_eq!(r, Some(0));
    assert_eq!(k.tasks[0].status, TASK_RUNNING);
    let r = k.rust_trap(&mut mem, &mut fx, 13, 0);
    assert_eq!(r, None);
    assert_eq!(k.tasks[0].status, TASK_FAULTED);
    assert_eq!(k.tasks[0].exit_code, -1);
}

#[test]
fn descriptors_run_out_after_thirteen_opens() {
    let (mut k, mut mem, mut fx) = boot();
    put(&mut mem, DATA, b"f\0");
    for fd in 3..MAX_FD {
        let (_, r) = call(&mut k, &mut mem, &mut fx, SYSCALL_OPENAT, [DATA, OPEN_CREATE, 0]);
        assert_eq!(r, fd as isize);
    }
    let (_, r) = call(&mut k, &mut mem, &mut fx, SYSCALL_OPENAT, [DATA, OPEN_CREATE, 0]);
    assert_eq!(r, -1);
}

#[test]
fn sent_signal_reaches_its_handler_with_the_action_mask() {
    let (mut k, mut mem, mut fx) = boot();
    let handler = USER_BASE + 0x800;
    put(&mut mem, DATA, &(handler as u64).to_le_bytes());
    put(&mut mem, DATA + 8, &0x8u64.to_le_bytes());
    let (_, r) = call(&mut k, &mut mem, &mut fx, SYSCALL_RT_SIGACTION, [12, DATA, 0]);
    assert_eq!(r, 0);
    let before = k.tasks[0].context;
    let (r, _) = call(&mut k, &mut mem, &mut fx, SYSCALL_KILL, [1, 12, 0]);
    assert_eq!(r, Some(0));
    assert_eq!(k.tasks[0].context.sepc, handler);
    assert_eq!(k.tasks[0].handling_signal, 12);
    assert_eq!(k.tasks[0].signal_mask, 0x8);
    assert_eq!(k.tasks[0].signal_pending & (1 << 12), 0);
    assert_eq!(k.tasks[0].saved_signal_context.sepc, before.sepc + 4);
}
