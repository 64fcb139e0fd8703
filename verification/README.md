# rcore_os

The logic of a small RISC-V teaching kernel and its support crates,
verified with Verus.

- `src/` is the verified library: register contexts and the portal page
  layout (`context`), signal numbers, actions and per-process signal state
  (`signal_defs`, `signal`, `signal_impl`), the kernel layout and the
  application table (`linker`), process/thread relations and managers over
  hashbrown maps (`task_manage`), the states of the blocking mutex,
  semaphore and condition variable (`sync`), log levels and console
  decisions (`console`), heap region checks (`kernel_alloc`), page-table
  walk decisions and page filling (`kernel_vm`), system call numbers and
  time values (`syscall`), and three teaching kernels (`rustos`: the batch
  kernel, the time-sharing kernel, and the kernel with processes, files,
  pipes and signals).  Laws that span calls are proof functions in
  `rustos/laws.rs`, `signal_impl/laws.rs` and beside the types they speak
  of.
- `app/` is the code that runs on the machine: globals, interrupts, raw
  memory, the heap, the logger, trap entry, and carrying out the effects
  the kernels decide.
- `tests/` runs the library on concrete values.
