use vstd::prelude::*;
use crate::channel::recv_blocking;
use crate::message::{MainThreadExecutor, Message};

verus! {

/// Where the worker stands after handling one message.
#[derive(Debug, PartialEq, Eq, Structural)]
pub enum WorkerStatus {
    /// It ran a task and waits for the next message.
    Waiting,
    /// It received a shutdown request and stops.
    ShutDown,
    /// The queue reported that every sending half is gone; it stops.
    Disconnected,
}

} // verus!

verus! {

/// The status the worker ends in after handling `received`, where `None`
/// stands for a queue whose sending halves are all gone.
pub open spec fn status_after<T>(received: Option<Message<T>>) -> WorkerStatus {
    match received {
        Some(Message::Task(_)) => WorkerStatus::Waiting,
        Some(Message::Shutdown) => WorkerStatus::ShutDown,
        None => WorkerStatus::Disconnected,
    }
}

/// The task that the worker runs on handling `received`, if any.
pub open spec fn task_run<T>(received: Option<Message<T>>) -> Option<T> {
    match received {
        Some(Message::Task(t)) => Some(t),
        _ => None,
    }
}

/// The tasks that a worker runs, in order, when it handles `received` one
/// message after another, stopping at the first message after which it is no
/// longer waiting.
pub open spec fn tasks_run<T>(received: Seq<Option<Message<T>>>) -> Seq<T>
    decreases received.len(),
{
    if received.len() == 0 {
        Seq::empty()
    } else if status_after(received[0]) == WorkerStatus::Waiting {
        seq![task_run(received[0])->Some_0] + tasks_run(received.drop_first())
    } else {
        Seq::empty()
    }
}

/// The messages that carry `tasks`, in the same order.
pub open spec fn task_messages<T>(tasks: Seq<T>) -> Seq<Option<Message<T>>> {
    tasks.map_values(|t: T| Some(Message::Task(t)))
}

/// Handles one received message: runs a task on the executor, or reports why
/// the worker stops.
pub fn handle_message<T, E: MainThreadExecutor<T>>(executor: &E, received: Option<Message<T>>) -> (r: WorkerStatus)
    ensures
        r == status_after(received),
{
    match received {
        Some(Message::Task(task)) => {
            executor.execute(task);
            WorkerStatus::Waiting
        },
        Some(Message::Shutdown) => WorkerStatus::ShutDown,
        None => WorkerStatus::Disconnected,
    }
}

/// Waits for the next message on the worker's queue and handles it. The
/// worker thread calls this until the status is no longer `Waiting`.
pub fn worker_step<T, E: MainThreadExecutor<T>>(
    receiver: &crossbeam::channel::Receiver<Message<T>>,
    executor: &E,
) -> (r: WorkerStatus) {
    let received = recv_blocking(receiver);
    handle_message(executor, received)
}

/// A worker that receives tasks and then a message that stops it (a shutdown
/// request or a disconnection) runs exactly those tasks, each once and in the
/// order received, and runs nothing received after the stop.
pub proof fn lemma_tasks_run_before_stop<T>(
    tasks: Seq<T>,
    stop: Option<Message<T>>,
    rest: Seq<Option<Message<T>>>,
)
    requires
        status_after(stop) != WorkerStatus::Waiting,
    ensures
        tasks_run(task_messages(tasks) + seq![stop] + rest) == tasks,
    decreases tasks.len(),
{
    let all = task_messages(tasks) + seq![stop] + rest;
    if tasks.len() == 0 {
        assert(all[0] == stop);
    } else {
        let tail = tasks.drop_first();
        assert(all[0] == Some(Message::Task(tasks[0])));
        assert(all.drop_first() =~= task_messages(tail) + seq![stop] + rest);
        lemma_tasks_run_before_stop(tail, stop, rest);
        assert(tasks =~= seq![tasks[0]] + tail);
    }
}

} // verus!
