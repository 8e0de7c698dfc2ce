use vstd::prelude::*;

verus! {

/// The responder side disconnected and the question could not be asked.
/// The question is handed back.
#[derive(Debug)]
pub struct AskError<Q> {
    question: Q,
}

/// The questioner side disconnected and the answer could not be sent.
/// The answer is handed back.
#[derive(Debug)]
pub struct Responderror<A> {
    answer: A,
}

/// The responder side disconnected after the question was asked but before
/// sending an answer.
#[derive(Copy, Clone, Debug)]
pub struct ListenError(pub(crate) ());

/// Either the responder side disconnected after the question was asked but
/// before sending an answer, or the deadline passed first.
#[derive(Copy, Clone, Debug, PartialEq, Eq, Structural)]
pub enum ListenTimeoutError {
    Disconnected,
    Timeout,
}

/// Either the question could not be asked, or no answer came.
#[derive(Debug)]
pub enum DialogueError<Q> {
    Ask(AskError<Q>),
    Listen,
}

/// Either the question could not be asked, no answer came, or the deadline
/// passed first.
#[derive(Debug)]
pub enum DialogueTimeoutError<Q> {
    Ask(AskError<Q>),
    Listen,
    Timeout,
}

impl<Q> From<DialogueError<Q>> for DialogueTimeoutError<Q> {
    fn from(v: DialogueError<Q>) -> (r: Self) {
        match v {
            DialogueError::Listen => DialogueTimeoutError::Listen,
            DialogueError::Ask(e) => DialogueTimeoutError::Ask(e),
        }
    }
}

impl<Q> vstd::std_specs::convert::FromSpecImpl<DialogueError<Q>> for DialogueTimeoutError<Q> {
    open spec fn obeys_from_spec() -> bool {
        true
    }

    /// Each failure keeps its kind; a failed ask keeps its question.
    open spec fn from_spec(v: DialogueError<Q>) -> Self {
        match v {
            DialogueError::Listen => DialogueTimeoutError::Listen,
            DialogueError::Ask(e) => DialogueTimeoutError::Ask(e),
        }
    }
}

impl<Q> From<ListenError> for DialogueError<Q> {
    fn from(v: ListenError) -> (r: Self) {
        DialogueError::Listen
    }
}

impl<Q> vstd::std_specs::convert::FromSpecImpl<ListenError> for DialogueError<Q> {
    open spec fn obeys_from_spec() -> bool {
        true
    }

    /// A failed listen within a dialogue.
    open spec fn from_spec(v: ListenError) -> Self {
        DialogueError::Listen
    }
}

impl<Q> From<ListenTimeoutError> for DialogueTimeoutError<Q> {
    fn from(v: ListenTimeoutError) -> (r: Self) {
        match v {
            ListenTimeoutError::Timeout => DialogueTimeoutError::Timeout,
            ListenTimeoutError::Disconnected => DialogueTimeoutError::Listen,
        }
    }
}

impl<Q> vstd::std_specs::convert::FromSpecImpl<ListenTimeoutError> for DialogueTimeoutError<Q> {
    open spec fn obeys_from_spec() -> bool {
        true
    }

    /// A disconnection becomes a failed listen; a timeout stays a timeout.
    open spec fn from_spec(v: ListenTimeoutError) -> Self {
        match v {
            ListenTimeoutError::Timeout => DialogueTimeoutError::Timeout,
            ListenTimeoutError::Disconnected => DialogueTimeoutError::Listen,
        }
    }
}

impl<Q> AskError<Q> {
    /// The question that could not be asked.
    pub closed spec fn question(&self) -> Q {
        self.question
    }

    pub(crate) fn new(question: Q) -> (r: Self)
        ensures
            r.question() == question,
    {
        AskError { question }
    }

    /// Gives the question back to its owner.
    pub fn into_inner(self) -> (r: Q)
        ensures
            r == self.question(),
    {
        self.question
    }

    /// A sentence describing the failure.
    pub fn message(&self) -> (r: &'static str)
        ensures
            r@ == ask_error_text(),
    {
        "Responder disconnected before question was asked"
    }
}

impl<A> Responderror<A> {
    /// The answer that could not be sent.
    pub closed spec fn answer(&self) -> A {
        self.answer
    }

    pub(crate) fn new(answer: A) -> (r: Self)
        ensures
            r.answer() == answer,
    {
        Responderror { answer }
    }

    /// Gives the answer back to its owner.
    pub fn into_inner(self) -> (r: A)
        ensures
            r == self.answer(),
    {
        self.answer
    }

    /// A sentence describing the failure.
    pub fn message(&self) -> (r: &'static str)
        ensures
            r@ == respond_error_text(),
    {
        "Questioner disconnected before answer was sent"
    }
}

pub open spec fn ask_error_text() -> Seq<char> {
    "Responder disconnected before question was asked"@
}

pub open spec fn respond_error_text() -> Seq<char> {
    "Questioner disconnected before answer was sent"@
}

pub open spec fn listen_error_text() -> Seq<char> {
    "Responder disconnected before sending an answer"@
}

pub open spec fn timeout_text() -> Seq<char> {
    "Timeout before answer received"@
}

impl ListenError {
    /// A sentence describing the failure.
    pub fn message(&self) -> (r: &'static str)
        ensures
            r@ == listen_error_text(),
    {
        "Responder disconnected before sending an answer"
    }
}

impl ListenTimeoutError {
    /// A sentence describing the failure.
    pub fn message(&self) -> (r: &'static str)
        ensures
            r@ == match self {
                ListenTimeoutError::Timeout => timeout_text(),
                ListenTimeoutError::Disconnected => listen_error_text(),
            },
    {
        match self {
            ListenTimeoutError::Timeout => "Timeout before answer received",
            ListenTimeoutError::Disconnected => ListenError(()).message(),
        }
    }
}

impl<Q> DialogueError<Q> {
    /// A sentence describing the failure.
    pub fn message(&self) -> (r: &'static str)
        ensures
            r@ == match self {
                DialogueError::Ask(_) => ask_error_text(),
                DialogueError::Listen => listen_error_text(),
            },
    {
        match self {
            DialogueError::Ask(a) => a.message(),
            DialogueError::Listen => ListenError(()).message(),
        }
    }
}

impl<Q> DialogueTimeoutError<Q> {
    /// A sentence describing the failure.
    pub fn message(&self) -> (r: &'static str)
        ensures
            r@ == match self {
                DialogueTimeoutError::Ask(_) => ask_error_text(),
                DialogueTimeoutError::Listen => listen_error_text(),
                DialogueTimeoutError::Timeout => timeout_text(),
            },
    {
        match self {
            DialogueTimeoutError::Ask(a) => a.message(),
            DialogueTimeoutError::Listen => ListenError(()).message(),
            DialogueTimeoutError::Timeout => ListenTimeoutError::Timeout.message(),
        }
    }
}

} // verus!
