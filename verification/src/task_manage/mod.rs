//! Process and thread bookkeeping: ids, and the relations between a
//! process and its children and threads.

pub mod collections;
pub mod id;
pub mod manager;
pub mod proc_manage;
pub mod proc_rel;
pub mod proc_thread_rel;
pub mod scheduler;
pub mod thread_manager;

pub use id::{CoroId, ProcId, ThreadId};
pub use manager::Manage;
pub use proc_manage::PManager;
pub use proc_rel::ProcRel;
pub use proc_thread_rel::ProcThreadRel;
pub use scheduler::Schedule;
pub use thread_manager::PThreadManager;
