//! Signal numbers and signal actions shared by the kernel and user space.

use vstd::prelude::*;

verus! {

/// The largest standard (non real-time) signal number.
pub const MAX_SIG: usize = 31;

/// Signal numbers. The discriminant of each variant is its number:
/// `ERR` is 0, the standard signals run from 1 to 31, and the real-time
/// signals `SIGRTMIN`, `SIGRT1` ..= `SIGRT31` run from 32 to 63.
#[allow(non_camel_case_types)]
#[derive(Clone, Copy, Debug, PartialEq, Eq, Structural)]
pub enum SignalNo {
    ERR,
    SIGHUP,
    SIGINT,
    SIGQUIT,
    SIGILL,
    SIGTRAP,
    SIGABRT,
    SIGBUS,
    SIGFPE,
    SIGKILL,
    SIGUSR1,
    SIGSEGV,
    SIGUSR2,
    SIGPIPE,
    SIGALRM,
    SIGTERM,
    SIGSTKFLT,
    SIGCHLD,
    SIGCONT,
    SIGSTOP,
    SIGTSTP,
    SIGTTIN,
    SIGTTOU,
    SIGURG,
    SIGXCPU,
    SIGXFSZ,
    SIGVTALRM,
    SIGPROF,
    SIGWINCH,
    SIGIO,
    SIGPWR,
    SIGSYS,
    SIGRTMIN,
    SIGRT1,
    SIGRT2,
    SIGRT3,
    SIGRT4,
    SIGRT5,
    SIGRT6,
    SIGRT7,
    SIGRT8,
    SIGRT9,
    SIGRT10,
    SIGRT11,
    SIGRT12,
    SIGRT13,
    SIGRT14,
    SIGRT15,
    SIGRT16,
    SIGRT17,
    SIGRT18,
    SIGRT19,
    SIGRT20,
    SIGRT21,
    SIGRT22,
    SIGRT23,
    SIGRT24,
    SIGRT25,
    SIGRT26,
    SIGRT27,
    SIGRT28,
    SIGRT29,
    SIGRT30,
    SIGRT31,
}

/// The number of a signal, as a spec function.
pub open spec fn signal_number(s: SignalNo) -> nat {
    match s {
        SignalNo::ERR => 0,
        SignalNo::SIGHUP => 1,
        SignalNo::SIGINT => 2,
        SignalNo::SIGQUIT => 3,
        SignalNo::SIGILL => 4,
        SignalNo::SIGTRAP => 5,
        SignalNo::SIGABRT => 6,
        SignalNo::SIGBUS => 7,
        SignalNo::SIGFPE => 8,
        SignalNo::SIGKILL => 9,
        SignalNo::SIGUSR1 => 10,
        SignalNo::SIGSEGV => 11,
        SignalNo::SIGUSR2 => 12,
        SignalNo::SIGPIPE => 13,
        SignalNo::SIGALRM => 14,
        SignalNo::SIGTERM => 15,
        SignalNo::SIGSTKFLT => 16,
        SignalNo::SIGCHLD => 17,
        SignalNo::SIGCONT => 18,
        SignalNo::SIGSTOP => 19,
        SignalNo::SIGTSTP => 20,
        SignalNo::SIGTTIN => 21,
        SignalNo::SIGTTOU => 22,
        SignalNo::SIGURG => 23,
        SignalNo::SIGXCPU => 24,
        SignalNo::SIGXFSZ => 25,
        SignalNo::SIGVTALRM => 26,
        SignalNo::SIGPROF => 27,
        SignalNo::SIGWINCH => 28,
        SignalNo::SIGIO => 29,
        SignalNo::SIGPWR => 30,
        SignalNo::SIGSYS => 31,
        SignalNo::SIGRTMIN => 32,
        SignalNo::SIGRT1 => 33,
        SignalNo::SIGRT2 => 34,
        SignalNo::SIGRT3 => 35,
        SignalNo::SIGRT4 => 36,
        SignalNo::SIGRT5 => 37,
        SignalNo::SIGRT6 => 38,
        SignalNo::SIGRT7 => 39,
        SignalNo::SIGRT8 => 40,
        SignalNo::SIGRT9 => 41,
        SignalNo::SIGRT10 => 42,
        SignalNo::SIGRT11 => 43,
        SignalNo::SIGRT12 => 44,
        SignalNo::SIGRT13 => 45,
        SignalNo::SIGRT14 => 46,
        SignalNo::SIGRT15 => 47,
        SignalNo::SIGRT16 => 48,
        SignalNo::SIGRT17 => 49,
        SignalNo::SIGRT18 => 50,
        SignalNo::SIGRT19 => 51,
        SignalNo::SIGRT20 => 52,
        SignalNo::SIGRT21 => 53,
        SignalNo::SIGRT22 => 54,
        SignalNo::SIGRT23 => 55,
        SignalNo::SIGRT24 => 56,
        SignalNo::SIGRT25 => 57,
        SignalNo::SIGRT26 => 58,
        SignalNo::SIGRT27 => 59,
        SignalNo::SIGRT28 => 60,
        SignalNo::SIGRT29 => 61,
        SignalNo::SIGRT30 => 62,
        SignalNo::SIGRT31 => 63,
    }
}

/// The signal whose number is `n`; every number outside `0..64` maps to `ERR`.
pub open spec fn signal_of_number(n: int) -> SignalNo {
    if n == 1 {
        SignalNo::SIGHUP
    } else if n == 2 {
        SignalNo::SIGINT
    } else if n == 3 {
        SignalNo::SIGQUIT
    } else if n == 4 {
        SignalNo::SIGILL
    } else if n == 5 {
        SignalNo::SIGTRAP
    } else if n == 6 {
        SignalNo::SIGABRT
    } else if n == 7 {
        SignalNo::SIGBUS
    } else if n == 8 {
        SignalNo::SIGFPE
    } else if n == 9 {
        SignalNo::SIGKILL
    } else if n == 10 {
        SignalNo::SIGUSR1
    } else if n == 11 {
        SignalNo::SIGSEGV
    } else if n == 12 {
        SignalNo::SIGUSR2
    } else if n == 13 {
        SignalNo::SIGPIPE
    } else if n == 14 {
        SignalNo::SIGALRM
    } else if n == 15 {
        SignalNo::SIGTERM
    } else if n == 16 {
        SignalNo::SIGSTKFLT
    } else if n == 17 {
        SignalNo::SIGCHLD
    } else if n == 18 {
        SignalNo::SIGCONT
    } else if n == 19 {
        SignalNo::SIGSTOP
    } else if n == 20 {
        SignalNo::SIGTSTP
    } else if n == 21 {
        SignalNo::SIGTTIN
    } else if n == 22 {
        SignalNo::SIGTTOU
    } else if n == 23 {
        SignalNo::SIGURG
    } else if n == 24 {
        SignalNo::SIGXCPU
    } else if n == 25 {
        SignalNo::SIGXFSZ
    } else if n == 26 {
        SignalNo::SIGVTALRM
    } else if n == 27 {
        SignalNo::SIGPROF
    } else if n == 28 {
        SignalNo::SIGWINCH
    } else if n == 29 {
        SignalNo::SIGIO
    } else if n == 30 {
        SignalNo::SIGPWR
    } else if n == 31 {
        SignalNo::SIGSYS
    } else if n == 32 {
        SignalNo::SIGRTMIN
    } else if n == 33 {
        SignalNo::SIGRT1
    } else if n == 34 {
        SignalNo::SIGRT2
    } else if n == 35 {
        SignalNo::SIGRT3
    } else if n == 36 {
        SignalNo::SIGRT4
    } else if n == 37 {
        SignalNo::SIGRT5
    } else if n == 38 {
        SignalNo::SIGRT6
    } else if n == 39 {
        SignalNo::SIGRT7
    } else if n == 40 {
        SignalNo::SIGRT8
    } else if n == 41 {
        SignalNo::SIGRT9
    } else if n == 42 {
        SignalNo::SIGRT10
    } else if n == 43 {
        SignalNo::SIGRT11
    } else if n == 44 {
        SignalNo::SIGRT12
    } else if n == 45 {
        SignalNo::SIGRT13
    } else if n == 46 {
        SignalNo::SIGRT14
    } else if n == 47 {
        SignalNo::SIGRT15
    } else if n == 48 {
        SignalNo::SIGRT16
    } else if n == 49 {
        SignalNo::SIGRT17
    } else if n == 50 {
        SignalNo::SIGRT18
    } else if n == 51 {
        SignalNo::SIGRT19
    } else if n == 52 {
        SignalNo::SIGRT20
    } else if n == 53 {
        SignalNo::SIGRT21
    } else if n == 54 {
        SignalNo::SIGRT22
    } else if n == 55 {
        SignalNo::SIGRT23
    } else if n == 56 {
        SignalNo::SIGRT24
    } else if n == 57 {
        SignalNo::SIGRT25
    } else if n == 58 {
        SignalNo::SIGRT26
    } else if n == 59 {
        SignalNo::SIGRT27
    } else if n == 60 {
        SignalNo::SIGRT28
    } else if n == 61 {
        SignalNo::SIGRT29
    } else if n == 62 {
        SignalNo::SIGRT30
    } else if n == 63 {
        SignalNo::SIGRT31
    } else {
        SignalNo::ERR
    }
}

impl SignalNo {
    /// The signal's number.
    pub fn number(self) -> (r: u8)
        ensures
            r == signal_number(self),
    {
        match self {
            SignalNo::ERR => 0,
            SignalNo::SIGHUP => 1,
            SignalNo::SIGINT => 2,
            SignalNo::SIGQUIT => 3,
            SignalNo::SIGILL => 4,
            SignalNo::SIGTRAP => 5,
            SignalNo::SIGABRT => 6,
            SignalNo::SIGBUS => 7,
            SignalNo::SIGFPE => 8,
            SignalNo::SIGKILL => 9,
            SignalNo::SIGUSR1 => 10,
            SignalNo::SIGSEGV => 11,
            SignalNo::SIGUSR2 => 12,
            SignalNo::SIGPIPE => 13,
            SignalNo::SIGALRM => 14,
            SignalNo::SIGTERM => 15,
            SignalNo::SIGSTKFLT => 16,
            SignalNo::SIGCHLD => 17,
            SignalNo::SIGCONT => 18,
            SignalNo::SIGSTOP => 19,
            SignalNo::SIGTSTP => 20,
            SignalNo::SIGTTIN => 21,
            SignalNo::SIGTTOU => 22,
            SignalNo::SIGURG => 23,
            SignalNo::SIGXCPU => 24,
            SignalNo::SIGXFSZ => 25,
            SignalNo::SIGVTALRM => 26,
            SignalNo::SIGPROF => 27,
            SignalNo::SIGWINCH => 28,
            SignalNo::SIGIO => 29,
            SignalNo::SIGPWR => 30,
            SignalNo::SIGSYS => 31,
            SignalNo::SIGRTMIN => 32,
            SignalNo::SIGRT1 => 33,
            SignalNo::SIGRT2 => 34,
            SignalNo::SIGRT3 => 35,
            SignalNo::SIGRT4 => 36,
            SignalNo::SIGRT5 => 37,
            SignalNo::SIGRT6 => 38,
            SignalNo::SIGRT7 => 39,
            SignalNo::SIGRT8 => 40,
            SignalNo::SIGRT9 => 41,
            SignalNo::SIGRT10 => 42,
            SignalNo::SIGRT11 => 43,
            SignalNo::SIGRT12 => 44,
            SignalNo::SIGRT13 => 45,
            SignalNo::SIGRT14 => 46,
            SignalNo::SIGRT15 => 47,
            SignalNo::SIGRT16 => 48,
            SignalNo::SIGRT17 => 49,
            SignalNo::SIGRT18 => 50,
            SignalNo::SIGRT19 => 51,
            SignalNo::SIGRT20 => 52,
            SignalNo::SIGRT21 => 53,
            SignalNo::SIGRT22 => 54,
            SignalNo::SIGRT23 => 55,
            SignalNo::SIGRT24 => 56,
            SignalNo::SIGRT25 => 57,
            SignalNo::SIGRT26 => 58,
            SignalNo::SIGRT27 => 59,
            SignalNo::SIGRT28 => 60,
            SignalNo::SIGRT29 => 61,
            SignalNo::SIGRT30 => 62,
            SignalNo::SIGRT31 => 63,
        }
    }

    /// The signal with number `n`, or `ERR` when no signal has that number.
    pub fn from_number(n: usize) -> (r: SignalNo)
        ensures
            r == signal_of_number(n as int),
    {
        match n {
            1 => SignalNo::SIGHUP,
            2 => SignalNo::SIGINT,
            3 => SignalNo::SIGQUIT,
            4 => SignalNo::SIGILL,
            5 => SignalNo::SIGTRAP,
            6 => SignalNo::SIGABRT,
            7 => SignalNo::SIGBUS,
            8 => SignalNo::SIGFPE,
            9 => SignalNo::SIGKILL,
            10 => SignalNo::SIGUSR1,
            11 => SignalNo::SIGSEGV,
            12 => SignalNo::SIGUSR2,
            13 => SignalNo::SIGPIPE,
            14 => SignalNo::SIGALRM,
            15 => SignalNo::SIGTERM,
            16 => SignalNo::SIGSTKFLT,
            17 => SignalNo::SIGCHLD,
            18 => SignalNo::SIGCONT,
            19 => SignalNo::SIGSTOP,
            20 => SignalNo::SIGTSTP,
            21 => SignalNo::SIGTTIN,
            22 => SignalNo::SIGTTOU,
            23 => SignalNo::SIGURG,
            24 => SignalNo::SIGXCPU,
            25 => SignalNo::SIGXFSZ,
            26 => SignalNo::SIGVTALRM,
            27 => SignalNo::SIGPROF,
            28 => SignalNo::SIGWINCH,
            29 => SignalNo::SIGIO,
            30 => SignalNo::SIGPWR,
            31 => SignalNo::SIGSYS,
            32 => SignalNo::SIGRTMIN,
            33 => SignalNo::SIGRT1,
            34 => SignalNo::SIGRT2,
            35 => SignalNo::SIGRT3,
            36 => SignalNo::SIGRT4,
            37 => SignalNo::SIGRT5,
            38 => SignalNo::SIGRT6,
            39 => SignalNo::SIGRT7,
            40 => SignalNo::SIGRT8,
            41 => SignalNo::SIGRT9,
            42 => SignalNo::SIGRT10,
            43 => SignalNo::SIGRT11,
            44 => SignalNo::SIGRT12,
            45 => SignalNo::SIGRT13,
            46 => SignalNo::SIGRT14,
            47 => SignalNo::SIGRT15,
            48 => SignalNo::SIGRT16,
            49 => SignalNo::SIGRT17,
            50 => SignalNo::SIGRT18,
            51 => SignalNo::SIGRT19,
            52 => SignalNo::SIGRT20,
            53 => SignalNo::SIGRT21,
            54 => SignalNo::SIGRT22,
            55 => SignalNo::SIGRT23,
            56 => SignalNo::SIGRT24,
            57 => SignalNo::SIGRT25,
            58 => SignalNo::SIGRT26,
            59 => SignalNo::SIGRT27,
            60 => SignalNo::SIGRT28,
            61 => SignalNo::SIGRT29,
            62 => SignalNo::SIGRT30,
            63 => SignalNo::SIGRT31,
            _ => SignalNo::ERR,
        }
    }
}

impl From<usize> for SignalNo {
    fn from(n: usize) -> (r: SignalNo) {
        SignalNo::from_number(n)
    }
}

impl vstd::std_specs::convert::FromSpecImpl<usize> for SignalNo {
    open spec fn obeys_from_spec() -> bool {
        true
    }

    open spec fn from_spec(v: usize) -> SignalNo {
        signal_of_number(v as int)
    }
}

/// Each signal number names the signal it is the number of, and
/// every number in `0..64` is the number of the signal it names.
pub proof fn lemma_signal_number_round_trip(s: SignalNo, n: int)
    ensures
        signal_of_number(signal_number(s) as int) == s,
        0 <= n < 64 ==> signal_number(signal_of_number(n)) == n,
        signal_number(s) < 64,
{
}

/// A user-installed signal action: the handler's address and the mask
/// that is added while the handler runs. A handler of 0 means none.
#[derive(Clone, Copy, Debug, PartialEq, Eq, Structural)]
pub struct SignalAction {
    pub handler: usize,
    pub mask: usize,
}

impl Default for SignalAction {
    fn default() -> (r: SignalAction)
        ensures
            r.handler == 0,
            r.mask == 0,
    {
        SignalAction { handler: 0, mask: 0 }
    }
}

} // verus!
