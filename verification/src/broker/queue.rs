//! Subscriber queues.
//!
//! A subscriber hands the topic the sending end of an asynchronous channel.
//! The receiving end lives in another task, so what a delivery attempt finds
//! (room, a full queue, a closed queue) is outside this library's control.
//! This module holds the three calls the library makes on such a queue and
//! the policy that decides what becomes of a subscriber after an attempt.

use vstd::prelude::*;

verus! {

/// `async_std::channel::Sender`, the sending end of a queue. The library
/// carries it and hands it to the calls below; it sees nothing inside it.
#[verifier::external_type_specification]
#[verifier::external_body]
#[verifier::reject_recursive_types(T)]
pub struct ExSender<T>(async_std::channel::Sender<T>);

/// `async_std::channel::Receiver`, the receiving end of a queue. The library
/// hands it out and makes no call on it.
#[verifier::external_type_specification]
#[verifier::external_body]
#[verifier::reject_recursive_types(T)]
pub struct ExReceiver<T>(async_std::channel::Receiver<T>);

/// What a non-blocking delivery attempt found.
#[derive(Clone, Copy, Debug, PartialEq, Eq, Structural)]
pub enum Delivery {
    /// The queue took the message.
    Accepted,
    /// The queue is bounded and had no room left: a slow consumer.
    Full,
    /// The queue was closed already: the consumer is gone.
    Closed,
}

/// What the topic does with a subscriber after a delivery attempt.
#[derive(Clone, Copy, Debug, PartialEq, Eq, Structural)]
pub enum Verdict {
    /// The subscriber stays registered.
    Keep,
    /// The subscriber's queue is closed, which tells the consumer to stop,
    /// and the subscriber is dropped from the registry.
    Evict,
    /// The subscriber is dropped from the registry without further ado.
    Forget,
}

/// The backpressure policy: only an accepted delivery keeps a subscriber, and
/// only a full queue is closed by the topic.
pub open spec fn verdict_of(outcome: Delivery) -> Verdict {
    match outcome {
        Delivery::Accepted => Verdict::Keep,
        Delivery::Full => Verdict::Evict,
        Delivery::Closed => Verdict::Forget,
    }
}

/// Decides the fate of a subscriber from the outcome of a delivery attempt.
pub fn backpressure(outcome: Delivery) -> (verdict: Verdict)
    ensures
        verdict == verdict_of(outcome),
{
    match outcome {
        Delivery::Accepted => Verdict::Keep,
        Delivery::Full => Verdict::Evict,
        Delivery::Closed => Verdict::Forget,
    }
}

/// Calls `async_std::channel::Sender::try_send` and reports which of its three
/// results came back. The result depends on the state of the queue, which the
/// receiving task changes at will, so nothing is claimed about it.
#[verifier::external_body]
pub(crate) fn try_deliver<T>(sender: &async_std::channel::Sender<T>, msg: T) -> (outcome:
    Delivery) {
    match sender.try_send(msg) {
        Ok(()) => Delivery::Accepted,
        Err(async_std::channel::TrySendError::Full(_)) => Delivery::Full,
        Err(async_std::channel::TrySendError::Closed(_)) => Delivery::Closed,
    }
}

/// Calls `async_std::channel::Sender::close`, which closes the channel for
/// both ends. Its effect is on the queue alone; nothing is claimed here.
#[verifier::external_body]
pub(crate) fn close_queue<T>(sender: &async_std::channel::Sender<T>) {
    sender.close();
}

/// Calls `async_std::channel::unbounded` and returns the two ends of the new
/// channel. Nothing is claimed about them.
#[verifier::external_body]
pub(crate) fn unbounded_queue<T>() -> (ends: (
    async_std::channel::Sender<T>,
    async_std::channel::Receiver<T>,
)) {
    async_std::channel::unbounded()
}

} // verus!
