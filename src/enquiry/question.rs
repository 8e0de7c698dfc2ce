use vstd::prelude::*;
use crate::enquiry::dialogue::Dialogue;
use crate::enquiry::error::{AskError, ListenError, ListenTimeoutError};
use crate::timer::TaskTimeoutResult;

verus! {

/// The asking side of a rendezvous. Cheap to clone: every clone puts its
/// questions on the same queue, so each task that asks can hold its own.
#[derive(Debug)]
#[verifier::reject_recursive_types(Q)]
#[verifier::reject_recursive_types(A)]
pub struct Questioner<Q, A> {
    question_sender: tokio::sync::mpsc::Sender<Dialogue<Q, A>>,
}

/// A question that was put on the queue: the means of receiving its answer.
#[derive(Debug)]
#[verifier::reject_recursive_types(A)]
pub struct QuestionAsked<A> {
    answer_receiver: tokio::sync::oneshot::Receiver<A>,
}

impl<Q, A> Questioner<Q, A> {
    /// The producing half of the queue.
    pub closed spec fn sender(&self) -> tokio::sync::mpsc::Sender<Dialogue<Q, A>> {
        self.question_sender
    }

    pub(crate) fn new(question_sender: tokio::sync::mpsc::Sender<Dialogue<Q, A>>) -> (r: Self)
        ensures
            r.sender() == question_sender,
    {
        Questioner { question_sender }
    }

    /// The queue that questions are put on. Reserving a slot on it (which
    /// waits while the queue is full) is the one step of asking that waits;
    /// `deliver` does the rest.
    pub fn queue(&self) -> (r: &tokio::sync::mpsc::Sender<Dialogue<Q, A>>)
        ensures
            *r == self.sender(),
    {
        &self.question_sender
    }

    /// Asks `message` in the slot that reserving gave: on a slot, the
    /// question goes on the queue bound to a fresh answer channel and the
    /// receiving end comes back; when the queue was closed, the question
    /// comes back unchanged in the error.
    pub fn deliver(
        slot: Result<tokio::sync::mpsc::Permit<'_, Dialogue<Q, A>>, tokio::sync::mpsc::error::SendError<()>>,
        message: Q,
    ) -> (r: Result<QuestionAsked<A>, AskError<Q>>)
        ensures
            r is Ok <==> slot is Ok,
            r matches Err(e) ==> e.question() == message,
    {
        match slot {
            Ok(permit) => {
                let (answer_sender, answer_receiver) = tokio::sync::oneshot::channel();
                permit.send(Dialogue::new(message, answer_sender));
                Ok(QuestionAsked { answer_receiver })
            },
            Err(_) => Err(AskError::new(message)),
        }
    }
}

impl<Q, A> Clone for Questioner<Q, A> {
    /// Another handle on the same queue.
    fn clone(&self) -> (r: Self)
        ensures
            r.sender() == self.sender(),
    {
        Questioner { question_sender: self.question_sender.clone() }
    }
}

impl<A> QuestionAsked<A> {
    /// The receiving half of the answer channel.
    pub closed spec fn receiver(&self) -> tokio::sync::oneshot::Receiver<A> {
        self.answer_receiver
    }

    /// The receiving end of the answer's channel; awaiting it gives the
    /// answer, or an error when the dialogue was dropped unanswered.
    pub fn into_receiver(self) -> (r: tokio::sync::oneshot::Receiver<A>)
        ensures
            r == self.receiver(),
    {
        self.answer_receiver
    }

    /// What listening comes to once the answer's channel has resolved: the
    /// answer, or `ListenError` when the dialogue was dropped unanswered.
    pub fn heard(received: Result<A, tokio::sync::oneshot::error::RecvError>) -> (r: Result<A, ListenError>)
        ensures
            r is Ok <==> received is Ok,
            received matches Ok(a) ==> r == Ok::<A, ListenError>(a),
    {
        match received {
            Ok(a) => Ok(a),
            Err(_) => Err(ListenError(())),
        }
    }

    /// What listening with a deadline comes to once the race between the
    /// answer's channel and the deadline has resolved. An answer that won the
    /// race is kept; a dropped dialogue is `Disconnected`; a passed deadline
    /// is `Timeout`.
    pub fn heard_or_timeout(
        outcome: TaskTimeoutResult<Result<A, tokio::sync::oneshot::error::RecvError>>,
    ) -> (r: Result<A, ListenTimeoutError>)
        ensures
            match outcome {
                TaskTimeoutResult::Completed(Ok(a)) => r == Ok::<A, ListenTimeoutError>(a),
                TaskTimeoutResult::Completed(Err(_)) => r == Err::<A, ListenTimeoutError>(
                    ListenTimeoutError::Disconnected,
                ),
                TaskTimeoutResult::Timeout => r == Err::<A, ListenTimeoutError>(
                    ListenTimeoutError::Timeout,
                ),
            },
    {
        match outcome {
            TaskTimeoutResult::Completed(Ok(a)) => Ok(a),
            TaskTimeoutResult::Completed(Err(_)) => Err(ListenTimeoutError::Disconnected),
            TaskTimeoutResult::Timeout => Err(ListenTimeoutError::Timeout),
        }
    }
}

} // verus!
