//! The two ways an operation on the synthesizer can fail.

use vstd::prelude::*;

verus! {

/// Why an operation was refused or did not complete.
#[derive(Debug, Clone, Copy, PartialEq, Eq, Structural)]
pub enum Error {
    /// A bus transfer failed; the cause is the transport's business.
    CommunicationError,
    /// An argument lies outside the range the chip can be programmed with.
    InvalidParameter,
}

impl Error {
    /// The text shown for this error.
    pub open spec fn spec_message(self) -> Seq<char> {
        match self {
            Error::CommunicationError => "Communication Error"@,
            Error::InvalidParameter => "Invalid Parameter"@,
        }
    }

    /// Renders the error for a log line or a panic message.
    pub fn message(&self) -> (text: &'static str)
        ensures
            text@ == self.spec_message(),
    {
        match self {
            Error::CommunicationError => "Communication Error",
            Error::InvalidParameter => "Invalid Parameter",
        }
    }
}

/// Folds any transport failure into [`Error::CommunicationError`].
pub fn i2c_error<E>(_cause: E) -> (e: Error)
    ensures
        e == Error::CommunicationError,
{
    Error::CommunicationError
}

} // verus!
