//! Verified core logic of a small RISC-V teaching kernel.

pub mod context;
pub mod signal;
pub mod signal_defs;
pub mod signal_impl;
pub mod linker;
pub mod task_manage;
pub mod sync;
pub mod console;
pub mod kernel_alloc;
pub mod kernel_vm;
pub mod rustos;
pub mod syscall;
pub mod text;
