//! The tokio channel types and calls that the rendezvous is built on, with
//! what their sources promise.
use vstd::prelude::*;

verus! {

/// The sending half of tokio's one-shot channel: carries at most one answer.
#[verifier::external_type_specification]
#[verifier::external_body]
#[verifier::reject_recursive_types(T)]
pub struct ExOneshotSender<T>(tokio::sync::oneshot::Sender<T>);

/// The receiving half of tokio's one-shot channel.
#[verifier::external_type_specification]
#[verifier::external_body]
#[verifier::reject_recursive_types(T)]
pub struct ExOneshotReceiver<T>(tokio::sync::oneshot::Receiver<T>);

/// What awaiting a one-shot receiver gives when its sender was dropped.
#[verifier::external_type_specification]
#[verifier::external_body]
pub struct ExRecvError(tokio::sync::oneshot::error::RecvError);

/// The producing half of tokio's bounded queue.
#[verifier::external_type_specification]
#[verifier::external_body]
#[verifier::reject_recursive_types(T)]
pub struct ExQueueSender<T>(tokio::sync::mpsc::Sender<T>);

/// The consuming half of tokio's bounded queue.
#[verifier::external_type_specification]
#[verifier::external_body]
#[verifier::reject_recursive_types(T)]
pub struct ExQueueReceiver<T>(tokio::sync::mpsc::Receiver<T>);

/// A slot reserved in the bounded queue, ready to take one value.
#[verifier::external_type_specification]
#[verifier::external_body]
#[verifier::reject_recursive_types(T)]
pub struct ExPermit<'a, T>(tokio::sync::mpsc::Permit<'a, T>);

/// What reserving a slot gives when the consuming half was dropped.
#[verifier::external_type_specification]
#[verifier::external_body]
#[verifier::reject_recursive_types(T)]
pub struct ExSendError<T>(tokio::sync::mpsc::error::SendError<T>);

/// What a deadline race gives when the deadline passed first.
#[verifier::external_type_specification]
#[verifier::external_body]
pub struct ExElapsed(tokio::time::error::Elapsed);

/// Relies on tokio::sync::oneshot::channel: makes a fresh pair of halves.
pub assume_specification<T>[ tokio::sync::oneshot::channel::<T> ]() -> (
    tokio::sync::oneshot::Sender<T>,
    tokio::sync::oneshot::Receiver<T>,
);

/// Relies on tokio::sync::oneshot::Sender::send: when the receiver is gone
/// the value comes back unchanged in `Err`.
pub assume_specification<T>[ tokio::sync::oneshot::Sender::<T>::send ](
    s: tokio::sync::oneshot::Sender<T>,
    t: T,
) -> (r: Result<(), T>)
    ensures
        r matches Err(v) ==> v == t,
;

/// Relies on tokio::sync::mpsc::channel: makes a queue of the given bound,
/// and panics on a bound of zero or above tokio's semaphore limit
/// (`usize::MAX >> 3` permits).
pub assume_specification<T>[ tokio::sync::mpsc::channel::<T> ](buffer: usize) -> (
    tokio::sync::mpsc::Sender<T>,
    tokio::sync::mpsc::Receiver<T>,
)
    requires
        0 < buffer <= usize::MAX >> 3,
;

/// Relies on tokio::sync::mpsc::Permit::send: puts the value in the slot
/// that was reserved; it cannot fail.
pub assume_specification<'a, T>[ tokio::sync::mpsc::Permit::<'a, T>::send ](
    p: tokio::sync::mpsc::Permit<'a, T>,
    value: T,
);

/// Relies on tokio's Clone for mpsc::Sender: the clone shares the same
/// channel (`Arc`) as the original, so it is the same handle.
pub assume_specification<T>[ <tokio::sync::mpsc::Sender<T> as Clone>::clone ](
    s: &tokio::sync::mpsc::Sender<T>,
) -> (r: tokio::sync::mpsc::Sender<T>)
    ensures
        r == *s,
;

} // verus!
