use vstd::prelude::*;
use crate::enquiry::error::Responderror;

verus! {

/// A question together with the private means of answering it.
/// The question can be read and changed in place, or taken out with
/// `into_parts`; answering consumes the dialogue, so it is answered at most
/// once.
#[derive(Debug)]
#[verifier::reject_recursive_types(A)]
pub struct Dialogue<Q, A> {
    message: Q,
    answer_sender: ResponseChannel<A>,
}

/// The obligation to answer one question: consumed by `answer`.
/// Needed directly only when the question is taken out of its `Dialogue`.
#[derive(Debug)]
#[verifier::reject_recursive_types(A)]
pub struct ResponseChannel<A>(tokio::sync::oneshot::Sender<A>);

impl<Q, A> Dialogue<Q, A> {
    /// The question being asked.
    pub closed spec fn question(&self) -> Q {
        self.message
    }

    /// The sending half of this question's answer channel.
    pub closed spec fn sender(&self) -> tokio::sync::oneshot::Sender<A> {
        self.answer_sender.0
    }

    /// Pairs a question with the sending half of its answer's channel.
    pub(crate) fn new(message: Q, answer_sender: tokio::sync::oneshot::Sender<A>) -> (r: Self)
        ensures
            r.question() == message,
            r.sender() == answer_sender,
    {
        Dialogue { message, answer_sender: ResponseChannel(answer_sender) }
    }

    /// Reads the question without consuming the dialogue.
    pub fn message(&self) -> (r: &Q)
        ensures
            *r == self.question(),
    {
        &self.message
    }

    /// Lends the question for change in place.
    pub fn message_mut(&mut self) -> (r: &mut Q)
        ensures
            *r == old(self).question(),
            final(self).question() == *final(r),
            final(self).sender() == old(self).sender(),
    {
        &mut self.message
    }

    /// Takes the question out, leaving the obligation to answer it.
    pub fn into_parts(self) -> (r: (Q, ResponseChannel<A>))
        ensures
            r.0 == self.question(),
            r.1.sender() == self.sender(),
    {
        (self.message, self.answer_sender)
    }

    /// Answers the question, consuming the dialogue. When the asker no longer
    /// waits, the answer comes back in the error.
    pub fn answer(self, answer: A) -> (r: Result<(), Responderror<A>>)
        ensures
            r matches Err(e) ==> e.answer() == answer,
    {
        self.answer_sender.answer(answer)
    }
}

impl<A> ResponseChannel<A> {
    /// The sending half of the answer channel.
    pub closed spec fn sender(&self) -> tokio::sync::oneshot::Sender<A> {
        self.0
    }

    /// Answers the question, consuming the channel. When the asker no longer
    /// waits, the answer comes back in the error.
    pub fn answer(self, answer: A) -> (r: Result<(), Responderror<A>>)
        ensures
            r matches Err(e) ==> e.answer() == answer,
    {
        Self::answered(self.0.send(answer))
    }

    /// What answering comes to once the channel's send has been made: success
    /// when the answer was taken, and otherwise a `Responderror` holding the
    /// answer that the channel gave back.
    pub fn answered(sent: Result<(), A>) -> (r: Result<(), Responderror<A>>)
        ensures
            r is Ok <==> sent is Ok,
            sent matches Err(v) ==> (r matches Err(e) && e.answer() == v),
    {
        match sent {
            Ok(()) => Ok(()),
            Err(a) => Err(Responderror::new(a)),
        }
    }
}

impl<Q, A> std::ops::Deref for Dialogue<Q, A> {
    type Target = Q;

    fn deref(&self) -> (r: &Q)
        ensures
            *r == self.question(),
    {
        &self.message
    }
}

impl<Q, A> std::ops::DerefMut for Dialogue<Q, A> {
    fn deref_mut(&mut self) -> (r: &mut Q)
        ensures
            *r == old(self).question(),
            final(self).question() == *final(r),
            final(self).sender() == old(self).sender(),
    {
        &mut self.message
    }
}

} // verus!
