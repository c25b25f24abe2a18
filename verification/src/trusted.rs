//! What this library takes on trust: the types and functions of the one-shot
//! channel and of the standard library's wake handle that it uses. Nothing
//! here is proved; each contract states what the named function's own
//! source or documentation says.

use vstd::prelude::*;
use std::task::Waker;
use tokio::sync::oneshot::{Receiver, Sender};

verus! {

/// The sending half of a one-shot channel, `tokio::sync::oneshot::Sender`.
/// Nothing inside it is visible to proofs.
#[verifier::external_type_specification]
#[verifier::external_body]
#[verifier::reject_recursive_types(T)]
pub struct ExSender<T>(Sender<T>);

/// The receiving half of a one-shot channel,
/// `tokio::sync::oneshot::Receiver`. Nothing inside it is visible to proofs.
#[verifier::external_type_specification]
#[verifier::external_body]
#[verifier::reject_recursive_types(T)]
pub struct ExReceiver<T>(Receiver<T>);

/// `tokio::sync::oneshot::error::RecvError`, which the receiving half yields
/// when its sender is gone. Declared because the receiver's type mentions it.
#[verifier::external_type_specification]
#[verifier::external_body]
pub struct ExRecvError(tokio::sync::oneshot::error::RecvError);

/// `std::task::Waker`, the handle by which a suspended task is rescheduled.
/// Nothing inside it is visible to proofs.
#[verifier::external_type_specification]
#[verifier::external_body]
pub struct ExWaker(Waker);

/// `tokio::sync::oneshot::channel` makes the two halves of a new channel.
/// Nothing is claimed of them.
pub assume_specification<T>[ tokio::sync::oneshot::channel::<T> ]() -> (halves: (
    Sender<T>,
    Receiver<T>,
));

/// `tokio::sync::oneshot::Sender::send` puts `value` into the channel. When
/// the receiving half is already gone it hands the same value back in `Err`.
/// `Ok` says only that the receiver had not hung up, not that it will look.
pub assume_specification<T>[ Sender::<T>::send ](sender: Sender<T>, value: T) -> (sent: Result<
    (),
    T,
>)
    ensures
        sent matches Err(back) ==> back == value,
;

/// `std::task::Waker::wake` asks the executor to poll the task that the
/// handle belongs to. It returns nothing, so nothing is claimed.
pub assume_specification[ Waker::wake ](waker: Waker);

/// `Clone::clone` of `std::task::Waker` gives a second handle for the same
/// task. Nothing is claimed of it.
pub assume_specification[ <Waker as Clone>::clone ](waker: &Waker) -> (copy: Waker);

} // verus!
