use rcore_os::rustos;
use rcore_os::syscall::{ClockId, OpenFlags, SyscallId, TimeSpec, STDDEBUG, STDIN, STDOUT};

#[test]
fn test_syscall_id_basic() {
    let id1 = SyscallId::from(64);
    let id2 = SyscallId(64);
    assert_eq!(id1, id2);

    let id3: SyscallId = 93usize.into();
    assert_eq!(id3.0, 93);
}

#[test]
fn test_syscall_id_constants() {
    assert_eq!(SyscallId::write().0, 64);
    assert_eq!(SyscallId::read().0, 63);
    assert_eq!(SyscallId::exit().0, 93);
    assert_eq!(SyscallId::clock_gettime().0, 113);
    assert_eq!(SyscallId::getpid().0, 172);
    assert_eq!(SyscallId::gettid().0, 178);
    assert_eq!(SyscallId::sched_yield().0, 124);
}

#[test]
fn kernel_call_numbers_match_the_interface() {
    assert_eq!(SyscallId::openat().0, rustos::SYSCALL_OPENAT);
    assert_eq!(SyscallId::close().0, rustos::SYSCALL_CLOSE);
    assert_eq!(SyscallId::pipe2().0, rustos::SYSCALL_PIPE2);
    assert_eq!(SyscallId::kill().0, rustos::SYSCALL_KILL);
    assert_eq!(SyscallId::rt_sigaction().0, rustos::SYSCALL_RT_SIGACTION);
    assert_eq!(SyscallId::rt_sigprocmask().0, rustos::SYSCALL_RT_SIGPROCMASK);
    assert_eq!(SyscallId::rt_sigreturn().0, rustos::SYSCALL_RT_SIGRETURN);
    assert_eq!(SyscallId::brk().0, rustos::SYSCALL_BRK);
    assert_eq!(SyscallId::clone_task().0, rustos::SYSCALL_CLONE);
    assert_eq!(SyscallId::execve().0, rustos::SYSCALL_EXECVE);
    assert_eq!(SyscallId::wait4().0, rustos::SYSCALL_WAIT4);
}

#[test]
fn test_io_constants() {
    assert_eq!(STDIN, 0);
    assert_eq!(STDOUT, 1);
    assert_eq!(STDDEBUG, 2);
}

#[test]
fn test_clock_id_constants() {
    assert_eq!(ClockId::clock_realtime().0, 0);
    assert_eq!(ClockId::clock_monotonic().0, 1);
    assert_eq!(ClockId::clock_process_cputime_id().0, 2);
    assert_eq!(ClockId::clock_thread_cputime_id().0, 3);
}

#[test]
fn test_time_spec_basic_and_add() {
    assert_eq!(TimeSpec::zero().tv_sec, 0);
    assert_eq!(TimeSpec::second().tv_sec, 1);
    assert_eq!(TimeSpec::millsecond().tv_nsec, 1_000_000);
    assert_eq!(TimeSpec::microsecond().tv_nsec, 1_000);
    assert_eq!(TimeSpec::nanosecond().tv_nsec, 1);

    let ts = TimeSpec::from_millsecond(1500);
    assert_eq!(ts.tv_sec, 1);
    assert_eq!(ts.tv_nsec, 500_000_000);

    let result = TimeSpec { tv_sec: 1, tv_nsec: 500_000_000 } + TimeSpec { tv_sec: 2, tv_nsec: 600_000_000 };
    assert_eq!(result.tv_sec, 4);
    assert_eq!(result.tv_nsec, 100_000_000);
    assert!(result.display_string().contains('4'));
}

#[test]
fn time_sum_without_carry_and_display() {
    let result = TimeSpec { tv_sec: 3, tv_nsec: 5 } + TimeSpec { tv_sec: 0, tv_nsec: 999_999_994 };
    assert_eq!(result, TimeSpec { tv_sec: 3, tv_nsec: 999_999_999 });
    assert_eq!(result.display_string(), "3.999999999");
    let carry = TimeSpec { tv_sec: 0, tv_nsec: 999_999_999 } + TimeSpec::nanosecond();
    assert_eq!(carry, TimeSpec::second());
}

#[test]
fn test_open_flags() {
    let rdonly = OpenFlags::rdonly();
    assert_eq!(rdonly.bits(), 0);

    let wronly = OpenFlags::wronly();
    assert_eq!(wronly.bits(), 1);

    let rdwr = OpenFlags::rdwr();
    assert_eq!(rdwr.bits(), 2);

    let create = OpenFlags::create();
    assert_eq!(create.bits(), 512);

    let trunc = OpenFlags::trunc();
    assert_eq!(trunc.bits(), 1024);

    let flags = OpenFlags::wronly() | OpenFlags::create() | OpenFlags::trunc();
    assert!(flags.contains(OpenFlags::wronly()));
    assert!(flags.contains(OpenFlags::create()));
    assert!(flags.contains(OpenFlags::trunc()));
}
