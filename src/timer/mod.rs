//! Racing a task against a deadline.
use vstd::prelude::*;

verus! {

/// What came of racing a task against a deadline.
#[derive(Debug)]
pub enum TaskTimeoutResult<R> {
    Timeout,
    Completed(R),
}

impl<R> TaskTimeoutResult<R> {
    /// Reads the outcome of tokio's deadline race: the task's result when it
    /// finished first, `Timeout` when the deadline passed first.
    pub fn from_race(outcome: Result<R, tokio::time::error::Elapsed>) -> (r: Self)
        ensures
            match outcome {
                Ok(v) => r == TaskTimeoutResult::Completed(v),
                Err(_) => r == TaskTimeoutResult::<R>::Timeout,
            },
    {
        match outcome {
            Ok(v) => TaskTimeoutResult::Completed(v),
            Err(_) => TaskTimeoutResult::Timeout,
        }
    }
}

} // verus!
