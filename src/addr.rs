//! Addresses: the cloneable handles through which messages reach an actor.
use vstd::prelude::*;

use crate::channel::{enqueue, reply_channel, share};
use crate::task::HandlerTask;

verus! {

/// A message that could not be delivered because the actor has stopped. It
/// holds the message itself, so that nothing sent is lost.
#[derive(Debug, PartialEq, Eq)]
pub struct SendError<M>(pub M);

/// A handle for sending messages to one actor and awaiting their results.
///
/// Every clone of an address feeds the same queue of the same actor.
#[derive(Debug)]
#[verifier::reject_recursive_types(M)]
#[verifier::reject_recursive_types(R)]
pub struct Addr<M, R> {
    sender: tokio::sync::mpsc::UnboundedSender<HandlerTask<M, R>>,
}

impl<M, R> Addr<M, R> {
    /// The handle to the queue that this address feeds.
    pub closed spec fn sender(&self) -> tokio::sync::mpsc::UnboundedSender<HandlerTask<M, R>> {
        self.sender
    }

    /// Whether two addresses feed the same queue, and so the same actor.
    pub open spec fn same_queue(&self, other: &Self) -> bool {
        self.sender() == other.sender()
    }

    /// Clones of one address are one actor to their users: any two of them
    /// feed the same queue.
    pub proof fn lemma_clones_share_queue(a: &Self, b: &Self, c: &Self)
        requires
            b.same_queue(a),
            c.same_queue(a),
        ensures
            b.same_queue(c),
            c.same_queue(b),
    {
    }

    pub(crate) fn new(sender: tokio::sync::mpsc::UnboundedSender<HandlerTask<M, R>>) -> (r: Self)
        ensures
            r.sender() == sender,
    {
        Addr { sender }
    }

    /// Queues `message` for the actor. On success the receiver resolves to
    /// the handler's result once the actor has come to this message; when the
    /// actor has stopped, the message comes back unchanged in the error.
    pub fn send(&self, message: M) -> (r: Result<tokio::sync::oneshot::Receiver<R>, SendError<M>>)
        ensures
            r matches Err(e) ==> e.0 == message,
    {
        let (sender, receiver) = reply_channel();
        let task = HandlerTask::new(message, sender);
        let outcome = enqueue(&self.sender, task);
        Self::settle(outcome, receiver)
    }

    /// What a send returns, given what the queue did with the work item:
    /// the result's receiver when it was queued, and the work item's own
    /// message when it was turned away.
    pub fn settle(
        outcome: Result<(), HandlerTask<M, R>>,
        receiver: tokio::sync::oneshot::Receiver<R>,
    ) -> (r: Result<tokio::sync::oneshot::Receiver<R>, SendError<M>>)
        ensures
            match outcome {
                Ok(()) => r == Ok::<tokio::sync::oneshot::Receiver<R>, SendError<M>>(receiver),
                Err(task) => r == Err::<tokio::sync::oneshot::Receiver<R>, SendError<M>>(
                    SendError(task.message()),
                ),
            },
    {
        match outcome {
            Ok(()) => Ok(receiver),
            Err(task) => Err(SendError(task.into_message())),
        }
    }
}

impl<M, R> Clone for Addr<M, R> {
    fn clone(&self) -> (r: Self)
        ensures
            r.same_queue(self),
    {
        Addr { sender: share(&self.sender) }
    }
}

} // verus!
