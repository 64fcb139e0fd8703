//! Console output and the log level, as decided by the kernel.

use vstd::prelude::*;
use vstd::string::StringSliceAdditionalSpecFns;

verus! {

/// A console driver: writes one byte at a time.
pub trait Console: Sync {
    /// Outputs one byte.
    fn put_char(&self, c: u8);

    /// Outputs the bytes of `s`, in order.
    fn put_str(&self, s: &str) {
        let bytes = s.as_bytes();
        let mut i: usize = 0;
        while i < bytes.len()
            invariant
                0 <= i <= bytes@.len(),
            decreases bytes@.len() - i,
        {
            self.put_char(bytes[i]);
            i = i + 1;
        }
    }
}

/// The maximum level of log records that are printed.
#[derive(Clone, Copy, Debug, PartialEq, Eq, Structural)]
pub enum LogLevel {
    Off,
    Error,
    Warn,
    Info,
    Debug,
    Trace,
}

/// The number a level is stored as: `Off` is 0, up to `Trace` at 5.
pub open spec fn level_number(level: LogLevel) -> usize {
    match level {
        LogLevel::Off => 0,
        LogLevel::Error => 1,
        LogLevel::Warn => 2,
        LogLevel::Info => 3,
        LogLevel::Debug => 4,
        LogLevel::Trace => 5,
    }
}

/// The level stored as `n`; unknown numbers read as `Off`.
pub open spec fn level_of_number(n: usize) -> LogLevel {
    if n == 1 {
        LogLevel::Error
    } else if n == 2 {
        LogLevel::Warn
    } else if n == 3 {
        LogLevel::Info
    } else if n == 4 {
        LogLevel::Debug
    } else if n == 5 {
        LogLevel::Trace
    } else {
        LogLevel::Off
    }
}

/// The number a level is stored as.
pub fn level_to_number(level: LogLevel) -> (r: usize)
    ensures
        r == level_number(level),
{
    match level {
        LogLevel::Off => 0,
        LogLevel::Error => 1,
        LogLevel::Warn => 2,
        LogLevel::Info => 3,
        LogLevel::Debug => 4,
        LogLevel::Trace => 5,
    }
}

/// The level stored as `n`; unknown numbers read as `Off`.
pub fn level_from_number(n: usize) -> (r: LogLevel)
    ensures
        r == level_of_number(n),
{
    if n == 1 {
        LogLevel::Error
    } else if n == 2 {
        LogLevel::Warn
    } else if n == 3 {
        LogLevel::Info
    } else if n == 4 {
        LogLevel::Debug
    } else if n == 5 {
        LogLevel::Trace
    } else {
        LogLevel::Off
    }
}

/// Storing a level and reading it back gives the level.
pub proof fn lemma_level_round_trip(level: LogLevel)
    ensures
        level_of_number(level_number(level)) == level,
{
}

/// `b` in lower case, for ASCII letters.
pub open spec fn ascii_lower(b: u8) -> u8 {
    if 65 <= b <= 90 {
        (b + 32) as u8
    } else {
        b
    }
}

/// Whether two byte strings are equal ignoring ASCII case.
pub open spec fn eq_ignore_case(a: Seq<u8>, b: Seq<u8>) -> bool {
    a.len() == b.len() && forall|i: int| 0 <= i < a.len() ==> ascii_lower(#[trigger] a[i]) == ascii_lower(b[i])
}

fn to_ascii_lower(b: u8) -> (r: u8)
    ensures
        r == ascii_lower(b),
{
    if 65 <= b && b <= 90 {
        b + 32
    } else {
        b
    }
}

/// Whether `a` and `b` are equal ignoring ASCII case.
pub fn equal_ignore_case(a: &str, b: &str) -> (r: bool)
    ensures
        r == eq_ignore_case(a.spec_bytes(), b.spec_bytes()),
{
    let x = a.as_bytes();
    let y = b.as_bytes();
    if x.len() != y.len() {
        return false;
    }
    let mut i: usize = 0;
    while i < x.len()
        invariant
            x@ == a.spec_bytes(),
            y@ == b.spec_bytes(),
            x@.len() == y@.len(),
            0 <= i <= x@.len(),
            forall|j: int| 0 <= j < i ==> ascii_lower(#[trigger] x@[j]) == ascii_lower(y@[j]),
        decreases x@.len() - i,
    {
        if to_ascii_lower(x[i]) != to_ascii_lower(y[i]) {
            return false;
        }
        i = i + 1;
    }
    true
}

/// The level a name stands for, ignoring ASCII case: `off`, `error`,
/// `warn` or `warning`, `info`, `debug`, `trace`.
pub open spec fn level_of_name(name: Seq<u8>) -> Option<LogLevel> {
    if eq_ignore_case(name, "off".spec_bytes()) {
        Some(LogLevel::Off)
    } else if eq_ignore_case(name, "error".spec_bytes()) {
        Some(LogLevel::Error)
    } else if eq_ignore_case(name, "warn".spec_bytes()) || eq_ignore_case(
        name,
        "warning".spec_bytes(),
    ) {
        Some(LogLevel::Warn)
    } else if eq_ignore_case(name, "info".spec_bytes()) {
        Some(LogLevel::Info)
    } else if eq_ignore_case(name, "debug".spec_bytes()) {
        Some(LogLevel::Debug)
    } else if eq_ignore_case(name, "trace".spec_bytes()) {
        Some(LogLevel::Trace)
    } else {
        None
    }
}

/// The level a name stands for, if any.
pub fn parse_level(level: &str) -> (r: Option<LogLevel>)
    ensures
        r == level_of_name(level.spec_bytes()),
{
    if equal_ignore_case(level, "off") {
        Some(LogLevel::Off)
    } else if equal_ignore_case(level, "error") {
        Some(LogLevel::Error)
    } else if equal_ignore_case(level, "warn") || equal_ignore_case(level, "warning") {
        Some(LogLevel::Warn)
    } else if equal_ignore_case(level, "info") {
        Some(LogLevel::Info)
    } else if equal_ignore_case(level, "debug") {
        Some(LogLevel::Debug)
    } else if equal_ignore_case(level, "trace") {
        Some(LogLevel::Trace)
    } else {
        None
    }
}

/// The level that setting the log level to `level` installs: no name
/// turns logging off, a known name its level; an unknown name installs
/// nothing (`None`), leaving the level as it was.
pub fn level_update(level: Option<&str>) -> (r: Option<LogLevel>)
    ensures
        level is None ==> r == Some(LogLevel::Off),
        level matches Some(name) ==> r == level_of_name(name.spec_bytes()),
{
    match level {
        None => Some(LogLevel::Off),
        Some(name) => parse_level(name),
    }
}

} // verus!
