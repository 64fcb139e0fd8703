//! The decision logic of the kernel's blocking primitives: who owns a
//! mutex, how many permits a semaphore holds, and who waits, in order.

pub mod condvar;
pub mod mutex;
pub mod semaphore;

pub use condvar::CondvarState;
pub use mutex::MutexState;
pub use semaphore::SemaphoreState;
