//! Where an instance listens.

use vstd::prelude::*;

verus! {

/// The port of instance zero; instance `id` listens `id` ports above it.
pub const BASE_PORT: u16 = 8080;

/// The port on which instance `id` accepts connections, where there is one:
/// an instance whose port would lie beyond the last port has none.
pub open spec fn port_of(id: u16) -> Option<u16> {
    if BASE_PORT + id <= u16::MAX {
        Some((BASE_PORT + id) as u16)
    } else {
        None
    }
}

/// Derives the listening port of instance `id`.
pub fn listen_port(id: u16) -> (port: Option<u16>)
    ensures
        port == port_of(id),
{
    if id <= u16::MAX - BASE_PORT {
        Some(BASE_PORT + id)
    } else {
        None
    }
}

} // verus!
