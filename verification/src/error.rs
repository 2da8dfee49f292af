//! The one way in which a call fails.

use vstd::prelude::*;

verus! {

/// Why an operation on a phone or a center did not complete.
#[derive(Debug, Clone, Copy, PartialEq, Eq, Structural)]
pub enum Error {
    /// The peer is gone: the queue's receiving end, every sending end, or
    /// the other half of a response channel.
    PhoneClosed,
}

impl Error {
    /// The text that describes this error.
    pub fn message(&self) -> (text: String)
        ensures
            text@ == "phone channel is already closed"@,
    {
        match self {
            Error::PhoneClosed => "phone channel is already closed".to_string(),
        }
    }
}

} // verus!
