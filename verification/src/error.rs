//! Why a request could not be forwarded, and what the caller is told.

use vstd::prelude::*;

verus! {

/// The ways in which forwarding a request can fail.
#[derive(Copy, Clone, PartialEq, Eq, Structural, Debug)]
pub enum ForwardError {
    /// The header naming the application is absent or cannot be read.
    HeaderMissing,
    /// The caller's identity or the application name is bound to nothing.
    RouteNotFound,
    /// The application is bound to no candidate endpoint.
    PoolEmpty,
    /// The exchange with the destination could not be started or completed.
    UpstreamUnreachable,
    /// The exchange with the destination took longer than allowed.
    UpstreamTimeout,
}

/// The status code that answers each failure.
pub open spec fn status_of(error: ForwardError) -> u16 {
    match error {
        ForwardError::HeaderMissing => 400,
        ForwardError::RouteNotFound => 502,
        ForwardError::PoolEmpty => 502,
        ForwardError::UpstreamUnreachable => 502,
        ForwardError::UpstreamTimeout => 504,
    }
}

impl ForwardError {
    /// The status code of the response that reports this failure.
    pub fn status(self) -> (code: u16)
        ensures
            code == status_of(self),
    {
        match self {
            ForwardError::HeaderMissing => 400,
            ForwardError::RouteNotFound => 502,
            ForwardError::PoolEmpty => 502,
            ForwardError::UpstreamUnreachable => 502,
            ForwardError::UpstreamTimeout => 504,
        }
    }
}

} // verus!
