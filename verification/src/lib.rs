//! A generic task-processing engine: a pool of workers drains a shared FIFO
//! queue, hands each item to a pluggable delegate, classifies the outcome,
//! and reports lifecycle milestones (start, per-item completion, final drain)
//! back to the delegate.

pub mod common;
pub mod counting;
pub mod outcome;
pub mod pool;
pub mod queue;

pub use common::diagnostics_enabled;
pub use common::is_debug;
pub use common::num_threads;
pub use counting::CountingDelegate;
pub use outcome::classify;
pub use outcome::RawResult;
pub use outcome::TaskOutcome;
pub use pool::Consumer;
pub use pool::ConsumerOptions;
pub use pool::Event;
pub use pool::Phase;
pub use pool::StartError;
pub use pool::TaskDelegation;
pub use queue::DequeueSignal;
pub use queue::QueueError;
pub use queue::TaskQueue;
