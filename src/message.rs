use vstd::prelude::*;

verus! {

/// What flows through the queue from the event loop to its worker.
///
/// Control and data share one queue, so a shutdown request is seen only after
/// every task that was queued before it.
pub enum Message<T> {
    /// A task for the worker to run on the executor.
    Task(T),
    /// Ends the worker's loop.
    Shutdown,
}

/// The capability that runs one task synchronously.
///
/// It is called from the thread that owns the event loop (the main thread)
/// and from the worker thread, and from nowhere else by this library.
pub trait MainThreadExecutor<T> {
    fn execute(&self, task: T);
}

} // verus!
