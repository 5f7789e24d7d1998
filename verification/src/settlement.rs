//! Passing on the answer to a permission request, once.
use futures_channel::oneshot::{channel, Canceled, Receiver, Sender};
use vstd::prelude::*;
use crate::permission::{PermissionReply, PermissionRequestOutput};

verus! {

/// The sending half of `futures_channel::oneshot`.
#[verifier::external_type_specification]
#[verifier::external_body]
#[verifier::reject_recursive_types(T)]
pub struct ExSender<T>(futures_channel::oneshot::Sender<T>);

/// The receiving half of `futures_channel::oneshot`.
#[verifier::external_type_specification]
#[verifier::external_body]
#[verifier::reject_recursive_types(T)]
pub struct ExReceiver<T>(futures_channel::oneshot::Receiver<T>);

/// What `futures_channel::oneshot` reports when the sending half is gone.
#[verifier::external_type_specification]
#[verifier::external_body]
pub struct ExCanceled(futures_channel::oneshot::Canceled);

/// `futures_channel::oneshot::channel`: the two halves of a new channel. Nothing is
/// claimed of them; what the receiver gets depends on when each half is used.
pub assume_specification<T>[ futures_channel::oneshot::channel::<T> ]() -> (r: (
    futures_channel::oneshot::Sender<T>,
    futures_channel::oneshot::Receiver<T>,
));

/// `futures_channel::oneshot::Sender::send`: a value that could not be sent comes
/// back unchanged. Whether it could be depends on whether the receiver is still
/// there, of which nothing is claimed.
pub assume_specification<T>[ futures_channel::oneshot::Sender::<T>::send ](
    sender: futures_channel::oneshot::Sender<T>,
    t: T,
) -> (r: Result<(), T>)
    ensures
        r matches Err(value) ==> value == t,
;

/// Passes on the answer to a permission request. The script may both fulfil and
/// reject its promise; only the first of the two counts.
#[verifier::reject_recursive_types(E)]
pub struct PermissionSettlement<E> {
    sender: Option<Sender<Result<PermissionRequestOutput, E>>>,
}

impl<E> PermissionSettlement<E> {
    /// The way to the receiver, as long as no answer has been passed on.
    pub closed spec fn pending(self) -> Option<Sender<Result<PermissionRequestOutput, E>>> {
        self.sender
    }

    /// A request without an answer so far, and where its answer will arrive.
    pub fn new() -> (r: (PermissionSettlement<E>, Receiver<Result<PermissionRequestOutput, E>>))
        ensures
            r.0.pending() is Some,
            call_ensures(
                channel::<Result<PermissionRequestOutput, E>>,
                (),
                (r.0.pending()->Some_0, r.1),
            ),
    {
        let (sender, receiver) = channel();
        (PermissionSettlement { sender: Some(sender) }, receiver)
    }

    /// Sends the answer on, unless one has been sent on before. `None` says that it
    /// was not the first; else the result is that of the sending.
    pub fn settle(&mut self, answer: Result<PermissionRequestOutput, E>) -> (r: Option<
        Result<(), Result<PermissionRequestOutput, E>>,
    >)
        ensures
            final(self).pending() is None,
            match old(self).pending() {
                Some(sender) => {
                    &&& r matches Some(sent)
                    &&& call_ensures(
                        Sender::<Result<PermissionRequestOutput, E>>::send,
                        (sender, answer),
                        sent,
                    )
                    &&& sent is Err ==> sent->Err_0 == answer
                },
                None => r is None,
            },
    {
        match self.sender.take() {
            Some(sender) => Some(sender.send(answer)),
            None => None,
        }
    }
}

/// What was received, or that there was nothing left to wait for.
pub fn received_reply<E>(received: Result<Result<PermissionRequestOutput, E>, Canceled>) -> (r:
    PermissionReply<E>)
    ensures
        r == match received {
            Ok(Ok(output)) => PermissionReply::Output(output),
            Ok(Err(e)) => PermissionReply::Rejected(e),
            Err(_) => PermissionReply::Dropped,
        },
{
    match received {
        Ok(Ok(output)) => PermissionReply::Output(output),
        Ok(Err(e)) => PermissionReply::Rejected(e),
        Err(_) => PermissionReply::Dropped,
    }
}

} // verus!
