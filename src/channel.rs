//! The channels of tokio that carry work items to an actor and results back.
use vstd::prelude::*;

verus! {

#[verifier::external_type_specification]
#[verifier::external_body]
#[verifier::reject_recursive_types(T)]
pub struct ExUnboundedSender<T>(tokio::sync::mpsc::UnboundedSender<T>);

#[verifier::external_type_specification]
#[verifier::external_body]
#[verifier::reject_recursive_types(T)]
pub struct ExWeakUnboundedSender<T>(tokio::sync::mpsc::WeakUnboundedSender<T>);

#[verifier::external_type_specification]
#[verifier::external_body]
#[verifier::reject_recursive_types(T)]
pub struct ExUnboundedReceiver<T>(tokio::sync::mpsc::UnboundedReceiver<T>);

#[verifier::external_type_specification]
#[verifier::external_body]
#[verifier::reject_recursive_types(T)]
pub struct ExOneshotSender<T>(tokio::sync::oneshot::Sender<T>);

#[verifier::external_type_specification]
#[verifier::external_body]
#[verifier::reject_recursive_types(T)]
pub struct ExOneshotReceiver<T>(tokio::sync::oneshot::Receiver<T>);

#[verifier::external_type_specification]
#[verifier::external_body]
pub struct ExRecvError(tokio::sync::oneshot::error::RecvError);

/// Relies on `tokio::sync::oneshot::channel`: a fresh single-use channel for one result.
#[verifier::external_body]
pub(crate) fn reply_channel<R>() -> (tokio::sync::oneshot::Sender<R>, tokio::sync::oneshot::Receiver<R>) {
    tokio::sync::oneshot::channel()
}

/// Relies on `tokio::sync::oneshot::Sender::send`: when the receiver is gone
/// the value comes back unchanged in the error.
#[verifier::external_body]
pub(crate) fn deliver<R>(sender: tokio::sync::oneshot::Sender<R>, value: R) -> (r: Result<(), R>)
    ensures
        r matches Err(back) ==> back == value,
{
    sender.send(value)
}

/// Relies on `tokio::sync::mpsc::unbounded_channel`: a fresh unbounded
/// queue with one sending handle and its receiver.
#[verifier::external_body]
pub(crate) fn open_mailbox<T>() -> (tokio::sync::mpsc::UnboundedSender<T>, tokio::sync::mpsc::UnboundedReceiver<T>) {
    tokio::sync::mpsc::unbounded_channel()
}

/// Relies on `tokio::sync::mpsc::UnboundedSender::send`: when the receiver is
/// closed the error holds the value that was passed in.
#[verifier::external_body]
pub(crate) fn enqueue<T>(sender: &tokio::sync::mpsc::UnboundedSender<T>, value: T) -> (r: Result<(), T>)
    ensures
        r matches Err(back) ==> back == value,
{
    sender.send(value).map_err(|error| error.0)
}

/// Relies on `Clone` for `tokio::sync::mpsc::UnboundedSender`: one more
/// strong handle to the same queue. The clone holds the same pointer to the
/// shared channel state as the original; only the count inside that state
/// changes.
#[verifier::external_body]
pub(crate) fn share<T>(sender: &tokio::sync::mpsc::UnboundedSender<T>) -> (r: tokio::sync::mpsc::UnboundedSender<T>)
    ensures
        r == *sender,
{
    sender.clone()
}

/// A handle to a queue that does not keep it open, together with the strong
/// handle that it was taken from.
#[verifier::reject_recursive_types(T)]
pub struct SelfSender<T> {
    weak: tokio::sync::mpsc::WeakUnboundedSender<T>,
    origin: Ghost<tokio::sync::mpsc::UnboundedSender<T>>,
}

impl<T> SelfSender<T> {
    /// The strong handle that this weak one was taken from.
    pub closed spec fn origin(&self) -> tokio::sync::mpsc::UnboundedSender<T> {
        self.origin@
    }
}

/// Relies on `tokio::sync::mpsc::UnboundedSender::downgrade`: a handle to the
/// same queue that does not keep it open. It shares the channel state of
/// `sender`.
#[verifier::external_body]
pub(crate) fn downgrade<T>(sender: &tokio::sync::mpsc::UnboundedSender<T>) -> (r: SelfSender<T>)
    ensures
        r.origin() == *sender,
{
    SelfSender { weak: sender.downgrade(), origin: Ghost(*sender) }
}

/// Relies on `tokio::sync::mpsc::WeakUnboundedSender::upgrade`: a strong
/// handle while another one is alive, `None` once all are gone. The strong
/// handle wraps the same channel state that the weak one was taken from, as
/// a clone does.
#[verifier::external_body]
pub(crate) fn upgrade<T>(weak: &SelfSender<T>) -> (r: Option<tokio::sync::mpsc::UnboundedSender<T>>)
    ensures
        r matches Some(s) ==> s == weak.origin(),
{
    weak.weak.upgrade()
}

} // verus!
