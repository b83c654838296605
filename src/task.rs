//! A work item: one message for an actor, together with the slot that its
//! result goes back through.
use vstd::prelude::*;

use crate::channel::deliver;

verus! {

/// One message bound to the single-use channel that takes its result.
#[verifier::reject_recursive_types(R)]
pub struct HandlerTask<M, R> {
    message: M,
    sender: tokio::sync::oneshot::Sender<R>,
}

/// The sending half of a work item's result channel, once the message has been
/// taken out for handling.
#[verifier::reject_recursive_types(R)]
pub struct Responder<R> {
    sender: tokio::sync::oneshot::Sender<R>,
}

impl<M, R> HandlerTask<M, R> {
    /// The message that this work item carries.
    pub closed spec fn message(&self) -> M {
        self.message
    }

    /// The sending half of the channel that takes this work item's result.
    pub closed spec fn sender(&self) -> tokio::sync::oneshot::Sender<R> {
        self.sender
    }

    /// Binds `message` to the channel that its result will be sent through.
    pub fn new(message: M, sender: tokio::sync::oneshot::Sender<R>) -> (r: Self)
        ensures
            r.message() == message,
            r.sender() == sender,
    {
        HandlerTask { message, sender }
    }

    /// Gives back the message of a work item that was never handled.
    pub fn into_message(self) -> (r: M)
        ensures
            r == self.message(),
    {
        self.message
    }

    /// Splits a work item for handling: the message, and the responder that
    /// takes the result.
    pub fn into_parts(self) -> (r: (M, Responder<R>))
        ensures
            r.0 == self.message(),
            r.1.sender() == self.sender(),
    {
        (self.message, Responder { sender: self.sender })
    }
}

impl<R> Responder<R> {
    /// The sending half of the channel that takes the result.
    pub closed spec fn sender(&self) -> tokio::sync::oneshot::Sender<R> {
        self.sender
    }

    /// Sends the result to whoever waits for it. Delivery is best effort: a
    /// caller that dropped its future no longer wants the result, so it is
    /// handed back here instead of being treated as a failure.
    pub fn respond(self, result: R) -> (r: Option<R>)
        ensures
            r matches Some(back) ==> back == result,
    {
        match deliver(self.sender, result) {
            Ok(()) => None,
            Err(back) => Some(back),
        }
    }
}

} // verus!
