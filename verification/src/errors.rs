//! The ways in which an exchange with the search engine fails.

use vstd::prelude::*;

verus! {

/// The four kinds of failure. Each reaches the caller as it is: nothing in
/// this crate retries an exchange or hides its failure.
#[derive(Debug, PartialEq, Eq)]
pub enum DistantError {
    /// The network or the connection failed; the text is the transport's own.
    TransportError(String),
    /// The engine answered with a status that is no success; the status is
    /// kept.
    EngineError(u16),
    /// The engine answered with success, but a required part of the answer
    /// is absent or has the wrong shape.
    MalformedResponse,
    /// The scroll token is used after its keep-alive window has elapsed.
    CursorExpired,
}

/// The model of what a reading function answers: the model of the value
/// it read, or the failure as it is.
pub open spec fn modelled<T: View>(r: Result<T, DistantError>) -> Result<T::V, DistantError> {
    match r {
        Ok(value) => Ok(value@),
        Err(e) => Err(e),
    }
}

/// A status from 200 to 299.
pub open spec fn is_success(status: u16) -> bool {
    200 <= status <= 299
}

/// Whether `status` tells of success.
pub fn status_is_success(status: u16) -> (r: bool)
    ensures
        r == is_success(status),
{
    200 <= status && status <= 299
}

} // verus!
