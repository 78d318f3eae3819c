//! The operating mode of a proxy instance and the protocol it speaks upstream.

use vstd::prelude::*;

verus! {

/// The personality a proxy instance is started with; it never changes while
/// the process runs.
#[derive(Copy, Clone, PartialEq, Eq, Structural, Debug)]
pub enum ForwardMode {
    /// Balances requests among the workers of the named application.
    Worker,
    /// Terminates outside traffic and hands it to the application tier.
    Edge,
}

/// The HTTP version of an outbound request.
#[derive(Copy, Clone, PartialEq, Eq, Structural, Debug)]
pub enum Protocol {
    /// HTTP/1.1, spoken between sibling workers.
    Http11,
    /// HTTP/2 only, spoken from the edge into the application tier.
    Http2,
}

/// The outbound protocol of each mode. It depends on nothing else: not on the
/// destination, not on the inbound request.
pub open spec fn protocol_of(mode: ForwardMode) -> Protocol {
    match mode {
        ForwardMode::Edge => Protocol::Http2,
        ForwardMode::Worker => Protocol::Http11,
    }
}

/// Chooses the outbound protocol for `mode`.
pub fn select_protocol(mode: ForwardMode) -> (protocol: Protocol)
    ensures
        protocol == protocol_of(mode),
{
    match mode {
        ForwardMode::Edge => Protocol::Http2,
        ForwardMode::Worker => Protocol::Http11,
    }
}

} // verus!
