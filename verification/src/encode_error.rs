//! Error returned when a byte source fails while encoding.

use vstd::prelude::*;

verus! {

/// Error occurred reading from the stream to encode.
#[derive(Debug)]
pub struct EncodeError {
    /// Underlying IO error.
    pub error: std::io::Error,
}

impl From<std::io::Error> for EncodeError {
    /// Wraps the underlying IO error without altering it.
    fn from(error: std::io::Error) -> (encode_error: Self) {
        EncodeError { error }
    }
}

impl vstd::std_specs::convert::FromSpecImpl<std::io::Error> for EncodeError {
    open spec fn obeys_from_spec() -> bool {
        true
    }

    open spec fn from_spec(error: std::io::Error) -> Self {
        EncodeError { error }
    }
}

impl EncodeError {
    /// A description of the failure, in place of a `Display` implementation.
    pub fn message(&self) -> (message: String)
        ensures
            message@ == "Failed to encode object data."@,
    {
        "Failed to encode object data.".to_owned()
    }
}

} // verus!
