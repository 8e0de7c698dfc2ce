use vstd::prelude::*;
use crate::enquiry::dialogue::Dialogue;

verus! {

/// The answering side of a rendezvous: the one reader of the queue, which
/// takes the questions in the order they were put on it. Not cloneable.
#[derive(Debug)]
#[verifier::reject_recursive_types(Q)]
#[verifier::reject_recursive_types(A)]
pub struct Responder<Q, A> {
    question_receiver: tokio::sync::mpsc::Receiver<Dialogue<Q, A>>,
}

impl<Q, A> Responder<Q, A> {
    /// The consuming half of the queue.
    pub closed spec fn receiver(&self) -> tokio::sync::mpsc::Receiver<Dialogue<Q, A>> {
        self.question_receiver
    }

    pub(crate) fn new(question_receiver: tokio::sync::mpsc::Receiver<Dialogue<Q, A>>) -> (r: Self)
        ensures
            r.receiver() == question_receiver,
    {
        Responder { question_receiver }
    }

    /// The queue that questions are taken from. Receiving from it waits for
    /// the next dialogue, and gives `None` once every questioner is gone and
    /// the queue is drained.
    pub fn queue_mut(&mut self) -> (r: &mut tokio::sync::mpsc::Receiver<Dialogue<Q, A>>)
        ensures
            *r == old(self).receiver(),
            final(self).receiver() == *final(r),
    {
        &mut self.question_receiver
    }
}

} // verus!
