//! A fixed-size worker pool: a bounded set of long-lived worker threads that
//! consume and run short-lived, type-erased units of work submitted by
//! callers, so that a submission does not pay the cost of starting a thread.
//!
//! Jobs travel from the pool to the workers over an unbounded FIFO dispatch
//! channel whose single receiving endpoint all workers share under a
//! mutual-exclusion lock. Teardown enqueues one shutdown signal per worker
//! before any join is attempted, then retires the workers in creation order.
//!
//! Starting and joining native threads cannot stand here, so the pool is
//! parametric in the thread-handle type: the owner supplies the spawner and
//! joiner, and everything else of the lifecycle is verified.

mod dispatch;
mod pool;

pub use dispatch::Job;
pub use dispatch::Message;
pub use dispatch::SharedReceiver;
pub use pool::Step;
pub use pool::ThreadPool;
pub use pool::decide;
pub use pool::worker_loop;
