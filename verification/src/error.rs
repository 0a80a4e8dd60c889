//! Unifying error type for callers that encode and decode polymorphically.

use vstd::prelude::*;

use crate::decode_error::DecodeError;
use crate::encode_error::EncodeError;

verus! {

/// Error that occurs when reading or writing to a stream.
#[derive(Debug)]
pub enum Error {
    /// Errors that happen during decoding.
    DecodeError(DecodeError),
    /// Errors that happen during encoding.
    EncodeError(EncodeError),
}

impl From<DecodeError> for Error {
    /// Wraps a decode-side error without altering it.
    fn from(error: DecodeError) -> (unified: Self) {
        Error::DecodeError(error)
    }
}

impl vstd::std_specs::convert::FromSpecImpl<DecodeError> for Error {
    open spec fn obeys_from_spec() -> bool {
        true
    }

    open spec fn from_spec(error: DecodeError) -> Self {
        Error::DecodeError(error)
    }
}

impl From<EncodeError> for Error {
    /// Wraps an encode-side error without altering it.
    fn from(error: EncodeError) -> (unified: Self) {
        Error::EncodeError(error)
    }
}

impl vstd::std_specs::convert::FromSpecImpl<EncodeError> for Error {
    open spec fn obeys_from_spec() -> bool {
        true
    }

    open spec fn from_spec(error: EncodeError) -> Self {
        Error::EncodeError(error)
    }
}

impl Error {
    /// A description of the failure, in place of a `Display` implementation.
    pub fn message(&self) -> (message: String)
        ensures
            self is DecodeError ==> message@ == "Failed to decode object data."@,
            self is EncodeError ==> message@ == "Failed to encode object data."@,
    {
        match self {
            Error::DecodeError(e) => e.message(),
            Error::EncodeError(e) => e.message(),
        }
    }
}

} // verus!
