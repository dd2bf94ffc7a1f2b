use vstd::prelude::*;

verus! {

/// Errors that the library reports before any request is sent.
#[derive(Debug, Clone, Copy, PartialEq, Eq, Structural)]
pub enum RequestError {
    /// An id or slug holds a character other than an ASCII letter, digit or hyphen.
    NotBase62,
    /// A hash is not 40 lowercase hexadecimal digits.
    NotSHA1,
    /// A request parameter could not be encoded as JSON.
    JsonEncode,
}

impl RequestError {
    /// A human-readable description of the error.
    pub fn message(&self) -> (r: &'static str) {
        match self {
            RequestError::NotBase62 => "invalid id or slug: only ASCII letters, digits and '-' are allowed",
            RequestError::NotSHA1 => "invalid SHA1 hash: expected 40 lowercase hexadecimal digits",
            RequestError::JsonEncode => "a request parameter could not be encoded as JSON",
        }
    }
}

} // verus!
