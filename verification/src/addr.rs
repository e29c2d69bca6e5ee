//! Socket addresses as plain values.

use vstd::prelude::*;

verus! {

/// An internet socket address: an IP address and a port, and for IPv6 the
/// flow information and scope identifier as well.
///
/// The IP address is held as the big-endian integer of its octets. Two
/// addresses are equal exactly when all their fields are equal.
#[derive(Clone, Copy, Debug, PartialEq, Eq, Hash, Structural)]
#[allow(inconsistent_fields)]
pub enum SocketAddress {
    V4 { ip: u32, port: u16 },
    V6 { ip: u128, port: u16, flowinfo: u32, scope_id: u32 },
}

} // verus!
