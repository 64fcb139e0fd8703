//! The system call interface shared by the kernel and the applications:
//! call numbers, descriptors, clocks, times and open flags.

use vstd::prelude::*;

use crate::text::{decimal, zero_pad};

verus! {

/// A system call number.
#[derive(Clone, Copy, Debug, PartialEq, Eq, Structural)]
pub struct SyscallId(pub usize);

impl SyscallId {
    /// `OPENAT`.
    pub fn openat() -> (r: SyscallId)
        ensures
            r == (SyscallId(56)),
    {
        SyscallId(56)
    }
    /// `CLOSE`.
    pub fn close() -> (r: SyscallId)
        ensures
            r == (SyscallId(57)),
    {
        SyscallId(57)
    }
    /// `PIPE2`.
    pub fn pipe2() -> (r: SyscallId)
        ensures
            r == (SyscallId(59)),
    {
        SyscallId(59)
    }
    /// `READ`.
    pub fn read() -> (r: SyscallId)
        ensures
            r == (SyscallId(63)),
    {
        SyscallId(63)
    }
    /// `WRITE`.
    pub fn write() -> (r: SyscallId)
        ensures
            r == (SyscallId(64)),
    {
        SyscallId(64)
    }
    /// `EXIT`.
    pub fn exit() -> (r: SyscallId)
        ensures
            r == (SyscallId(93)),
    {
        SyscallId(93)
    }
    /// `CLOCK_GETTIME`.
    pub fn clock_gettime() -> (r: SyscallId)
        ensures
            r == (SyscallId(113)),
    {
        SyscallId(113)
    }
    /// `SCHED_YIELD`.
    pub fn sched_yield() -> (r: SyscallId)
        ensures
            r == (SyscallId(124)),
    {
        SyscallId(124)
    }
    /// `KILL`.
    pub fn kill() -> (r: SyscallId)
        ensures
            r == (SyscallId(129)),
    {
        SyscallId(129)
    }
    /// `RT_SIGACTION`.
    pub fn rt_sigaction() -> (r: SyscallId)
        ensures
            r == (SyscallId(134)),
    {
        SyscallId(134)
    }
    /// `RT_SIGPROCMASK`.
    pub fn rt_sigprocmask() -> (r: SyscallId)
        ensures
            r == (SyscallId(135)),
    {
        SyscallId(135)
    }
    /// `RT_SIGRETURN`.
    pub fn rt_sigreturn() -> (r: SyscallId)
        ensures
            r == (SyscallId(139)),
    {
        SyscallId(139)
    }
    /// `GETPID`.
    pub fn getpid() -> (r: SyscallId)
        ensures
            r == (SyscallId(172)),
    {
        SyscallId(172)
    }
    /// `GETTID`.
    pub fn gettid() -> (r: SyscallId)
        ensures
            r == (SyscallId(178)),
    {
        SyscallId(178)
    }
    /// `BRK`.
    pub fn brk() -> (r: SyscallId)
        ensures
            r == (SyscallId(214)),
    {
        SyscallId(214)
    }
    /// `CLONE`.
    pub fn clone_task() -> (r: SyscallId)
        ensures
            r == (SyscallId(220)),
    {
        SyscallId(220)
    }
    /// `EXECVE`.
    pub fn execve() -> (r: SyscallId)
        ensures
            r == (SyscallId(221)),
    {
        SyscallId(221)
    }
    /// `WAIT4`.
    pub fn wait4() -> (r: SyscallId)
        ensures
            r == (SyscallId(260)),
    {
        SyscallId(260)
    }
}

impl From<usize> for SyscallId {
    fn from(n: usize) -> (r: SyscallId) {
        SyscallId(n)
    }
}

impl vstd::std_specs::convert::FromSpecImpl<usize> for SyscallId {
    open spec fn obeys_from_spec() -> bool {
        true
    }

    open spec fn from_spec(v: usize) -> SyscallId {
        SyscallId(v)
    }
}

/// Standard input.
pub const STDIN: usize = 0;

/// Standard output.
pub const STDOUT: usize = 1;

/// Standard error, used for debug output.
pub const STDDEBUG: usize = 2;

/// A clock that `clock_gettime` reads.
#[derive(Clone, Copy, Debug, PartialEq, Eq, Structural)]
pub struct ClockId(pub usize);

impl ClockId {
    /// `CLOCK_REALTIME`.
    pub fn clock_realtime() -> (r: ClockId)
        ensures
            r == (ClockId(0)),
    {
        ClockId(0)
    }
    /// `CLOCK_MONOTONIC`.
    pub fn clock_monotonic() -> (r: ClockId)
        ensures
            r == (ClockId(1)),
    {
        ClockId(1)
    }
    /// `CLOCK_PROCESS_CPUTIME_ID`.
    pub fn clock_process_cputime_id() -> (r: ClockId)
        ensures
            r == (ClockId(2)),
    {
        ClockId(2)
    }
    /// `CLOCK_THREAD_CPUTIME_ID`.
    pub fn clock_thread_cputime_id() -> (r: ClockId)
        ensures
            r == (ClockId(3)),
    {
        ClockId(3)
    }
}

/// Nanoseconds in a second.
pub const NANOS_PER_SECOND: usize = 1_000_000_000;

/// A time: seconds and nanoseconds.
#[derive(Clone, Copy, Debug, PartialEq, Eq, Structural)]
pub struct TimeSpec {
    pub tv_sec: usize,
    pub tv_nsec: usize,
}

/// The number of nanoseconds a time stands for.
pub open spec fn nanos(t: TimeSpec) -> int {
    t.tv_sec * NANOS_PER_SECOND + t.tv_nsec
}

impl TimeSpec {
    /// `ZERO`.
    pub fn zero() -> (r: TimeSpec)
        ensures
            r == (TimeSpec { tv_sec: 0, tv_nsec: 0 }),
    {
        TimeSpec { tv_sec: 0, tv_nsec: 0 }
    }
    /// `SECOND`.
    pub fn second() -> (r: TimeSpec)
        ensures
            r == (TimeSpec { tv_sec: 1, tv_nsec: 0 }),
    {
        TimeSpec { tv_sec: 1, tv_nsec: 0 }
    }
    /// `MILLSECOND`.
    pub fn millsecond() -> (r: TimeSpec)
        ensures
            r == (TimeSpec { tv_sec: 0, tv_nsec: 1_000_000 }),
    {
        TimeSpec { tv_sec: 0, tv_nsec: 1_000_000 }
    }
    /// `MICROSECOND`.
    pub fn microsecond() -> (r: TimeSpec)
        ensures
            r == (TimeSpec { tv_sec: 0, tv_nsec: 1_000 }),
    {
        TimeSpec { tv_sec: 0, tv_nsec: 1_000 }
    }
    /// `NANOSECOND`.
    pub fn nanosecond() -> (r: TimeSpec)
        ensures
            r == (TimeSpec { tv_sec: 0, tv_nsec: 1 }),
    {
        TimeSpec { tv_sec: 0, tv_nsec: 1 }
    }

    /// The time of `millsecond` milliseconds.
    pub fn from_millsecond(millsecond: usize) -> (r: TimeSpec)
        ensures
            r.tv_sec == millsecond / 1000,
            r.tv_nsec == (millsecond % 1000) * 1_000_000,
            r.tv_nsec < NANOS_PER_SECOND,
            nanos(r) == millsecond * 1_000_000,
    {
        let r = TimeSpec { tv_sec: millsecond / 1000, tv_nsec: millsecond % 1000 * 1_000_000 };
        proof {
            assert(nanos(r) == millsecond * 1_000_000) by (nonlinear_arith)
                requires
                    r.tv_sec == millsecond / 1000,
                    r.tv_nsec == (millsecond % 1000) * 1_000_000,
            ;
        }
        r
    }

    /// The text a time is shown as: seconds, a point, and the nanoseconds
    /// padded to nine digits.
    pub fn display_string(&self) -> (r: String)
        ensures
            r@ == time_text(self.tv_sec, self.tv_nsec),
    {
        format_time(self.tv_sec, self.tv_nsec)
    }
}

/// `seconds.nanoseconds` in decimal, the nanoseconds padded with zeros to
/// nine digits.
pub open spec fn time_text(sec: usize, nsec: usize) -> Seq<char> {
    decimal(sec as nat) + "."@ + zero_pad(decimal(nsec as nat), 9)
}

/// Formats a time with std's `format!` as `{}.{:09}`: the seconds in
/// decimal, a point, the nanoseconds in decimal zero padded to nine
/// digits.
#[verifier::external_body]
fn format_time(sec: usize, nsec: usize) -> (r: String)
    ensures
        r@ == time_text(sec, nsec),
{
    format!("{}.{:09}", sec, nsec)
}

/// The sum of two times whose nanoseconds are below a second: nanoseconds
/// carry into seconds.
pub open spec fn time_sum(a: TimeSpec, b: TimeSpec) -> TimeSpec {
    let n = a.tv_nsec + b.tv_nsec;
    if n >= NANOS_PER_SECOND {
        TimeSpec { tv_sec: (a.tv_sec + b.tv_sec + 1) as usize, tv_nsec: (n - NANOS_PER_SECOND) as usize }
    } else {
        TimeSpec { tv_sec: (a.tv_sec + b.tv_sec) as usize, tv_nsec: n as usize }
    }
}

impl core::ops::Add for TimeSpec {
    type Output = TimeSpec;

    fn add(self, rhs: TimeSpec) -> TimeSpec {
        add_times(self, rhs)
    }
}

impl vstd::std_specs::ops::AddSpecImpl for TimeSpec {
    open spec fn obeys_add_spec() -> bool {
        true
    }

    open spec fn add_req(self, rhs: TimeSpec) -> bool {
        &&& self.tv_nsec < NANOS_PER_SECOND
        &&& rhs.tv_nsec < NANOS_PER_SECOND
        &&& self.tv_sec + rhs.tv_sec + 1 <= usize::MAX
    }

    open spec fn add_spec(self, rhs: TimeSpec) -> TimeSpec {
        time_sum(self, rhs)
    }
}

/// The sum of two times; the nanoseconds of each are below a second and
/// the seconds fit in a word.
pub fn add_times(a: TimeSpec, b: TimeSpec) -> (r: TimeSpec)
    requires
        a.tv_nsec < NANOS_PER_SECOND,
        b.tv_nsec < NANOS_PER_SECOND,
        a.tv_sec + b.tv_sec + 1 <= usize::MAX,
    ensures
        r == time_sum(a, b),
        r.tv_nsec < NANOS_PER_SECOND,
        nanos(r) == nanos(a) + nanos(b),
{
    let mut tv_sec = a.tv_sec + b.tv_sec;
    let mut tv_nsec = a.tv_nsec + b.tv_nsec;
    if tv_nsec >= NANOS_PER_SECOND {
        tv_sec = tv_sec + 1;
        tv_nsec = tv_nsec - NANOS_PER_SECOND;
    }
    TimeSpec { tv_sec, tv_nsec }
}

/// Flags of `open`.
#[derive(Clone, Copy, Debug, PartialEq, Eq, Structural)]
pub struct OpenFlags(usize);

impl OpenFlags {
    /// `RDONLY`.
    pub fn rdonly() -> (r: OpenFlags)
        ensures
            r.bits_spec() == 0,
    {
        OpenFlags(0)
    }
    /// `WRONLY`.
    pub fn wronly() -> (r: OpenFlags)
        ensures
            r.bits_spec() == 1,
    {
        OpenFlags(1)
    }
    /// `RDWR`.
    pub fn rdwr() -> (r: OpenFlags)
        ensures
            r.bits_spec() == 2,
    {
        OpenFlags(2)
    }
    /// `CREATE`.
    pub fn create() -> (r: OpenFlags)
        ensures
            r.bits_spec() == 512,
    {
        OpenFlags(512)
    }
    /// `TRUNC`.
    pub fn trunc() -> (r: OpenFlags)
        ensures
            r.bits_spec() == 1024,
    {
        OpenFlags(1024)
    }

    /// The bits of the flags.
    pub closed spec fn bits_spec(self) -> usize {
        self.0
    }

    /// The flags with the given bits.
    pub closed spec fn from_bits_spec(bits: usize) -> OpenFlags {
        OpenFlags(bits)
    }

    /// The bits of the flags.
    pub fn bits(self) -> (r: usize)
        ensures
            r == self.bits_spec(),
    {
        self.0
    }

    /// The flags with the given bits.
    pub fn from_bits(bits: usize) -> (r: OpenFlags)
        ensures
            r.bits_spec() == bits,
            r == Self::from_bits_spec(bits),
    {
        OpenFlags(bits)
    }

    /// Whether every flag of `other` is set.
    pub fn contains(self, other: OpenFlags) -> (r: bool)
        ensures
            r == (self.bits_spec() & other.bits_spec() == other.bits_spec()),
    {
        self.0 & other.0 == other.0
    }

    /// The flags of both.
    pub fn union(self, other: OpenFlags) -> (r: OpenFlags)
        ensures
            r.bits_spec() == self.bits_spec() | other.bits_spec(),
            r == Self::from_bits_spec(self.bits_spec() | other.bits_spec()),
    {
        OpenFlags(self.0 | other.0)
    }
}

impl core::ops::BitOr for OpenFlags {
    type Output = OpenFlags;

    fn bitor(self, rhs: OpenFlags) -> OpenFlags {
        self.union(rhs)
    }
}

impl vstd::std_specs::ops::BitOrSpecImpl for OpenFlags {
    open spec fn obeys_bitor_spec() -> bool {
        true
    }

    open spec fn bitor_req(self, rhs: OpenFlags) -> bool {
        true
    }

    open spec fn bitor_spec(self, rhs: OpenFlags) -> OpenFlags {
        OpenFlags::from_bits_spec(self.bits_spec() | rhs.bits_spec())
    }
}

} // verus!
