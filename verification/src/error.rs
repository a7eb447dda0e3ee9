//! The errors that awaiting a task can give.
use vstd::prelude::*;

verus! {

/// Error returned when awaiting a task that cannot produce a result.
#[derive(Debug, Clone, Copy, PartialEq, Eq, Structural)]
pub enum JoinError {
    /// The task was aborted before completion.
    Aborted,
    /// The task was polled after already returning a result.
    PollAfterReady,
}

/// The text that describes each error.
pub open spec fn join_error_text(e: JoinError) -> Seq<char> {
    match e {
        JoinError::Aborted => "task was aborted"@,
        JoinError::PollAfterReady => "task polled after completion"@,
    }
}

impl JoinError {
    /// Describes the error in words.
    pub fn to_string(&self) -> (s: String)
        ensures
            s@ == join_error_text(*self),
    {
        broadcast use vstd::string::to_string_from_display_ensures_for_str;
        match self {
            JoinError::Aborted => "task was aborted".to_string(),
            JoinError::PollAfterReady => "task polled after completion".to_string(),
        }
    }
}

} // verus!
