//! Error returned when a byte source fails while decoding.

use vstd::prelude::*;

verus! {

/// Declares `std::io::Error` so that it can be carried in error values.
/// Relies on the type's mere existence; nothing is assumed about it, and the
/// library never inspects a value of it — it is handed through to callers.
#[verifier::external_type_specification]
#[verifier::external_body]
pub struct ExIoError(std::io::Error);

/// Error occurred reading from the stream to decode.
#[derive(Debug)]
pub struct DecodeError {
    /// Underlying IO error.
    pub error: std::io::Error,
}

impl From<std::io::Error> for DecodeError {
    /// Wraps the underlying IO error without altering it.
    fn from(error: std::io::Error) -> (decode_error: Self) {
        DecodeError { error }
    }
}

impl vstd::std_specs::convert::FromSpecImpl<std::io::Error> for DecodeError {
    open spec fn obeys_from_spec() -> bool {
        true
    }

    open spec fn from_spec(error: std::io::Error) -> Self {
        DecodeError { error }
    }
}

impl DecodeError {
    /// A description of the failure, in place of a `Display` implementation.
    pub fn message(&self) -> (message: String)
        ensures
            message@ == "Failed to decode object data."@,
    {
        "Failed to decode object data.".to_owned()
    }
}

} // verus!
