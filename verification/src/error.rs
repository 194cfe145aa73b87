//! The library's error: a message.

use vstd::prelude::*;
use crate::text::to_owned_string;

verus! {

#[derive(Debug)]
pub struct DecodeError(pub String);

pub type Result<T> = std::result::Result<T, DecodeError>;

impl DecodeError {
    /// An error with the given message.
    pub fn new(message: &str) -> (r: DecodeError)
        ensures
            r.0@ == message@,
    {
        DecodeError(to_owned_string(message))
    }
}

impl From<String> for DecodeError {
    fn from(value: String) -> (r: DecodeError) {
        DecodeError(value)
    }
}

impl vstd::std_specs::convert::FromSpecImpl<String> for DecodeError {
    open spec fn obeys_from_spec() -> bool {
        true
    }

    open spec fn from_spec(v: String) -> DecodeError {
        DecodeError(v)
    }
}

} // verus!
