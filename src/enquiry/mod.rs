//! Asking questions of another task and waiting for the answers. A bounded
//! queue carries the questions from any number of askers to the one
//! responder; each question travels with its own one-shot channel, over
//! which exactly one answer can come back.
use vstd::prelude::*;
use crate::enquiry::answer::Responder;
use crate::enquiry::question::Questioner;

pub mod error;
pub mod dialogue;
pub mod question;
pub mod answer;
mod channel;

verus! {

/// The largest queue bound that tokio's bounded channel accepts.
pub const MAX_QUEUE_SIZE: usize = usize::MAX >> 3;

/// Makes the two sides of a rendezvous whose queue holds at most `size`
/// questions that the responder has not taken yet.
pub fn new<Q, A>(size: usize) -> (r: (Questioner<Q, A>, Responder<Q, A>))
    requires
        0 < size <= MAX_QUEUE_SIZE,
{
    let (question_sender, question_receiver) = tokio::sync::mpsc::channel(size);
    (Questioner::new(question_sender), Responder::new(question_receiver))
}

} // verus!
