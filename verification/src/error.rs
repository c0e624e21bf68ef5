//! The error type shared by the whole library.

use vstd::prelude::*;

verus! {

/// Every failure the library reports.
///
/// - `InvalidValue`: a numeric input to a `Temperature` constructor lies
///   below the absolute-zero floor for its unit (or above the supported
///   range); the message carries the rejected number.
/// - `InvalidInputError`: a required query selector (such as a location) is
///   missing; callers treat it as a usage error rather than a system fault.
/// - `RequestError`: the request URL could not be built, the transport
///   failed, or the remote service answered with a non-success status.
/// - `ParseError`: the response body does not match the expected schema.
#[derive(Debug)]
pub enum Error {
    InvalidValue(String),
    InvalidInputError(String),
    RequestError(String),
    ParseError(String),
}

impl Error {
    /// The human-readable message carried by the error.
    pub fn message(&self) -> (m: &String)
        ensures
            m@ == self.message_spec(),
    {
        match self {
            Error::InvalidValue(m) => m,
            Error::InvalidInputError(m) => m,
            Error::RequestError(m) => m,
            Error::ParseError(m) => m,
        }
    }

    /// The message carried by the error, at the specification level.
    pub open spec fn message_spec(&self) -> Seq<char> {
        match self {
            Error::InvalidValue(m) => m@,
            Error::InvalidInputError(m) => m@,
            Error::RequestError(m) => m@,
            Error::ParseError(m) => m@,
        }
    }
}

} // verus!
