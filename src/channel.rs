//! The bounded queue between the event loop and its worker, as provided by
//! crossbeam's channels.
use vstd::prelude::*;

verus! {

/// The sending half of a crossbeam channel, carried through opaquely.
#[verifier::external_type_specification]
#[verifier::external_body]
#[verifier::reject_recursive_types(T)]
pub struct ExSender<T>(crossbeam::channel::Sender<T>);

/// The receiving half of a crossbeam channel, carried through opaquely.
#[verifier::external_type_specification]
#[verifier::external_body]
#[verifier::reject_recursive_types(T)]
pub struct ExReceiver<T>(crossbeam::channel::Receiver<T>);

/// How a non-blocking send ended.
pub enum SendOutcome<M> {
    /// The message is in the queue.
    Sent,
    /// The queue held as many messages as it can; the message comes back.
    Full(M),
    /// The receiving half is gone; the message comes back.
    Disconnected(M),
}

/// Relies on crossbeam::channel::bounded: it creates a channel that holds at
/// most `cap` messages, and panics only for a capacity too large to allocate.
#[verifier::external_body]
pub(crate) fn bounded_channel<M>(cap: usize) -> (crossbeam::channel::Sender<M>, crossbeam::channel::Receiver<M>)
    requires
        0 < cap <= 65536,
{
    crossbeam::channel::bounded(cap)
}

/// Relies on crossbeam::channel::Sender::try_send: it never blocks, and a
/// message that it did not send comes back unchanged inside the error.
#[verifier::external_body]
pub(crate) fn try_send<M>(sender: &crossbeam::channel::Sender<M>, msg: M) -> (r: SendOutcome<M>)
    ensures
        r matches SendOutcome::Full(m) ==> m == msg,
        r matches SendOutcome::Disconnected(m) ==> m == msg,
{
    match sender.try_send(msg) {
        Ok(()) => SendOutcome::Sent,
        Err(crossbeam::channel::TrySendError::Full(m)) => SendOutcome::Full(m),
        Err(crossbeam::channel::TrySendError::Disconnected(m)) => SendOutcome::Disconnected(m),
    }
}

/// Relies on crossbeam::channel::Sender::send: it waits for room in the
/// queue, and fails only when the receiving half is gone, handing the message
/// back unchanged.
#[verifier::external_body]
pub(crate) fn send_blocking<M>(sender: &crossbeam::channel::Sender<M>, msg: M) -> (r: Result<(), M>)
    ensures
        r matches Err(m) ==> m == msg,
{
    sender.send(msg).map_err(|e| e.0)
}

/// Relies on crossbeam::channel::Receiver::recv: it waits for the next
/// message, and yields none once every sending half is gone and the queue is
/// empty.
#[verifier::external_body]
pub(crate) fn recv_blocking<M>(receiver: &crossbeam::channel::Receiver<M>) -> (r: Option<M>) {
    receiver.recv().ok()
}

} // verus!
