//! The provider's error taxonomy. Failures before the per-element loop
//! abort the whole call; per-element field problems never surface here,
//! they degrade to defaults instead.

use vstd::prelude::*;

verus! {

/// Why a whole fetch-and-normalize call failed.
#[derive(Clone, Copy, Debug, PartialEq, Eq, Structural)]
pub enum Error {
    /// The network transport failed before a status line was read
    /// (connection, timeout, name resolution). Produced by the caller that
    /// performs the request, never by the normalization logic.
    Transport,
    /// The service answered with a non-success HTTP status; the field holds
    /// that status code.
    HttpStatus(u16),
    /// The response body is not valid JSON, or its aircraft list is missing
    /// or not an array.
    Decode,
}

impl Error {
    /// A short stable label for the error, for hosts that want to surface it.
    pub fn label(&self) -> (r: &'static str)
        ensures
            r@ == match *self {
                Error::Transport => "transport error"@,
                Error::HttpStatus(_) => "http status error"@,
                Error::Decode => "decode error"@,
            },
    {
        match self {
            Error::Transport => "transport error",
            Error::HttpStatus(_) => "http status error",
            Error::Decode => "decode error",
        }
    }
}

} // verus!
