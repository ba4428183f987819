//! Deferral of tasks to a designated main thread, or to a dedicated worker
//! thread that drains a bounded queue when the caller is not the main thread.
//!
//! The library holds the decisions: which path a task takes, what the
//! worker does with each message it receives, and what teardown hands to the
//! queue. Spawning and joining the worker thread is left to the embedder.

pub mod channel;
pub mod event_loop;
pub mod message;
pub mod worker;
