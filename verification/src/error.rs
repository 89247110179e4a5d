use vstd::prelude::*;

verus! {

/// The only two ways a creation request can be rejected. Validation is the
/// sole failure surface of this crate: anything else (a missing clock, a
/// failed allocation) is the runtime's concern, never reported as one of
/// these.
#[derive(Clone, Copy, Debug, PartialEq, Eq, Structural)]
pub enum ErrorCode {
    /// The requested topic has more than 50 characters.
    TopicTooLong,
    /// The requested body has more than 280 characters.
    ContentTooLong,
}

impl ErrorCode {
    /// The fixed human-readable message naming the violated bound.
    pub fn message(&self) -> (m: &'static str)
        ensures
            *self == ErrorCode::TopicTooLong ==> m@ == "Topic length can't be more than 50"@,
            *self == ErrorCode::ContentTooLong ==> m@ == "Content length can't be more than 280"@,
    {
        match self {
            ErrorCode::TopicTooLong => "Topic length can't be more than 50",
            ErrorCode::ContentTooLong => "Content length can't be more than 280",
        }
    }
}

} // verus!
