//! The errors of the library, one variant per kind of failure.
use vstd::prelude::*;

verus! {

/// What went wrong with a call to the service.
#[derive(Debug, Clone, PartialEq, Eq)]
pub enum ClientError {
    /// Credentials or the location are missing or malformed; no request was sent.
    Config(String),
    /// The service turned the login down.
    Auth(String),
    /// The request did not complete: transport failure, timeout or an HTTP
    /// status outside the success range.
    Network(String),
    /// A successful reply whose body does not have the expected shape.
    Decode(String),
    /// A well-formed reply that reports a failure with a non-zero code.
    Domain { code: u64, description: String },
}

} // verus!
