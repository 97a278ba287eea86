//! The errors a pool reports to its callers.
use vstd::prelude::*;
use vstd::string::StringExecFns;

verus! {

/// Why a pool could not be created, or a message could not be queued.
#[derive(Debug)]
pub enum ThreadPoolError {
    /// The queue refused a message because no worker can receive it any more.
    /// The text names the cause.
    Failure(String),
    /// A pool of zero workers was asked for.
    SizeLteZero,
}

/// The text carried by [`ThreadPoolError::Failure`] for a refusal that the
/// queue describes as `description`.
pub open spec fn failure_text(description: Seq<char>) -> Seq<char> {
    "Failure: "@ + description
}

impl ThreadPoolError {
    /// This error is a refusal by the queue: a `Failure` whose text is
    /// [`failure_text`] of some description.
    pub open spec fn is_refusal(&self) -> bool {
        self matches ThreadPoolError::Failure(text) && "Failure: "@.is_prefix_of(text@)
    }

    /// The error for a message that the queue refused, given the queue's own
    /// description of the refusal.
    pub fn failure(description: String) -> (error: ThreadPoolError)
        ensures
            error matches ThreadPoolError::Failure(text) && text@ == failure_text(description@),
            error.is_refusal(),
    {
        let mut text = String::from_str("Failure: ");
        text.append(description.as_str());
        ThreadPoolError::Failure(text)
    }
}

} // verus!
