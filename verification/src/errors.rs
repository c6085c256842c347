//! Error values reported by the capture and decoding sides.

use vstd::prelude::*;

verus! {

/// Failure to obtain a raw input event from the local device source.
#[derive(Clone, Debug)]
pub struct InputEventError {
    error_msg: String,
}

impl InputEventError {
    /// The report carried by this error.
    pub closed spec fn spec_message(self) -> Seq<char> {
        self.error_msg@
    }

    pub fn new(error_msg: String) -> (r: Self)
        ensures
            r.spec_message() == error_msg@,
    {
        InputEventError { error_msg }
    }

    pub fn message(&self) -> (r: &str)
        ensures
            r@ == self.spec_message(),
    {
        self.error_msg.as_str()
    }
}

/// A frame whose payload could not be decoded into a key event: the peer is
/// non-conforming or malicious, and the connection must be closed.
#[derive(Clone, Debug)]
pub struct InvalidEncodedInputEventError {
    error_msg: String,
}

impl InvalidEncodedInputEventError {
    /// The report carried by this error.
    pub closed spec fn spec_message(self) -> Seq<char> {
        self.error_msg@
    }

    pub fn new(error_msg: String) -> (r: Self)
        ensures
            r.spec_message() == error_msg@,
    {
        InvalidEncodedInputEventError { error_msg }
    }

    pub fn message(&self) -> (r: &str)
        ensures
            r@ == self.spec_message(),
    {
        self.error_msg.as_str()
    }
}

} // verus!
