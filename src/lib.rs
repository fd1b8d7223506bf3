//! A non-blocking mutex for cooperative task schedulers.
//!
//! Where an ordinary mutex would block the calling thread, the lock here
//! suspends the requesting task and resumes it once the holder unlocks.
//! The protected value sits in an uncontended exclusive cell; suspended
//! requests park a wake handle in a spin-guarded registry, which each unlock
//! drains after the cell is free again.

mod outside;
pub mod protocol;
pub mod lock;

pub use lock::{AtomicLockAsync, Guard, LockFuture, LockWarnFuture};
pub use protocol::{PollAction, RequestState};
