//! The event loop's own state and its dispatch rule.
use std::sync::Arc;
use vstd::prelude::*;
use crate::channel::{bounded_channel, send_blocking, try_send, SendOutcome};
use crate::message::{MainThreadExecutor, Message};

verus! {

/// How many messages the queue to the worker holds before a non-blocking
/// submission is turned away.
pub const TASK_QUEUE_CAPACITY: usize = 512;

/// Why a shutdown request could not be delivered.
#[derive(Debug, PartialEq, Eq, Structural)]
pub enum ShutdownError {
    /// The worker's end of the queue is gone, so nothing will read the request.
    WorkerDisconnected,
}

/// The part of an event loop that decides where a task runs.
///
/// Threads are named by a number that the embedder gives each thread; the
/// number given at construction marks the main thread and never changes.
#[verifier::reject_recursive_types(T)]
pub struct EventLoop<T, E> {
    executor: Arc<E>,
    main_thread_id: u64,
    shutdown_requested: bool,
    worker_thread_channel: crossbeam::channel::Sender<Message<T>>,
}

impl<T, E: MainThreadExecutor<T>> EventLoop<T, E> {
    /// The thread that counts as the main thread.
    pub closed spec fn main_thread(&self) -> u64 {
        self.main_thread_id
    }

    /// Whether teardown has begun: from then on no task is queued.
    pub closed spec fn shutdown_requested(&self) -> bool {
        self.shutdown_requested
    }

    /// The executor that runs this loop's tasks.
    pub closed spec fn executor(&self) -> Arc<E> {
        self.executor
    }

    /// Creates the loop and its queue, taking `main_thread_id` as the main
    /// thread. The receiving half of the queue is returned, for the worker.
    pub fn new(executor: Arc<E>, main_thread_id: u64) -> (r: (Self, crossbeam::channel::Receiver<Message<T>>))
        ensures
            r.0.main_thread() == main_thread_id,
            r.0.executor() == executor,
            !r.0.shutdown_requested(),
    {
        let (sender, receiver) = bounded_channel(TASK_QUEUE_CAPACITY);
        (EventLoop {
            executor,
            main_thread_id,
            shutdown_requested: false,
            worker_thread_channel: sender,
        }, receiver)
    }

    /// The executor, shared with the worker.
    pub fn shared_executor(&self) -> (r: Arc<E>)
        ensures
            r == self.executor(),
    {
        self.executor.clone()
    }

    /// Whether `current` is the main thread.
    pub fn is_main_thread(&self, current: u64) -> (r: bool)
        ensures
            r == (current == self.main_thread()),
    {
        current == self.main_thread_id
    }

    /// Queues `task` for the worker without waiting, unless teardown has
    /// begun. A task that was not queued comes back in the error.
    pub fn try_enqueue(&self, task: T) -> (r: Result<(), T>)
        ensures
            r matches Err(t) ==> t == task,
            self.shutdown_requested() ==> r is Err,
    {
        if self.shutdown_requested {
            return Err(task);
        }
        match try_send(&self.worker_thread_channel, Message::Task(task)) {
            SendOutcome::Sent => Ok(()),
            SendOutcome::Full(Message::Task(t)) => Err(t),
            SendOutcome::Disconnected(Message::Task(t)) => Err(t),
            SendOutcome::Full(Message::Shutdown) => {
                proof { assert(false); }
                Ok(())
            },
            SendOutcome::Disconnected(Message::Shutdown) => {
                proof { assert(false); }
                Ok(())
            },
        }
    }

    /// Runs `task` at once when `current` is the main thread; otherwise
    /// queues it for the worker without waiting. Returns whether the task was
    /// run or queued; a task that was turned away is dropped. Once teardown
    /// has begun, a task from any other thread is turned away.
    pub fn do_maybe_async(&self, task: T, current: u64) -> (r: bool)
        ensures
            current == self.main_thread() ==> r,
            current != self.main_thread() && self.shutdown_requested() ==> !r,
    {
        if self.is_main_thread(current) {
            self.executor.execute(task);
            true
        } else {
            self.try_enqueue(task).is_ok()
        }
    }

    /// Begins teardown: asks the worker to stop once it has run every task
    /// queued before this request, waiting for room in the queue if need be.
    /// A second request sends nothing and succeeds.
    pub fn request_shutdown(&mut self) -> (r: Result<(), ShutdownError>)
        ensures
            final(self).shutdown_requested(),
            final(self).main_thread() == old(self).main_thread(),
            final(self).executor() == old(self).executor(),
            old(self).shutdown_requested() ==> r is Ok,
            r matches Err(e) ==> e == ShutdownError::WorkerDisconnected,
    {
        if self.shutdown_requested {
            return Ok(());
        }
        self.shutdown_requested = true;
        match send_blocking(&self.worker_thread_channel, Message::Shutdown) {
            Ok(()) => Ok(()),
            Err(_) => Err(ShutdownError::WorkerDisconnected),
        }
    }
}

} // verus!
