//! The record of one completed connection.

use vstd::prelude::*;
use crate::addr::SocketAddress;

verus! {

/// A completed transport-level link to a peer: the stream that carries it,
/// the peer's address, whether this side initiated it, and the identifier of
/// the protocol that produced it.
#[derive(Debug)]
pub struct Connection<S> {
    pub stream: S,
    pub peer_addr: SocketAddress,
    pub is_initiator: bool,
    pub protocol: String,
}

impl<S> Connection<S> {
    /// Puts a connection record together from its parts.
    pub fn new(
        stream: S,
        peer_addr: SocketAddress,
        is_initiator: bool,
        protocol: String,
    ) -> (conn: Self)
        ensures
            conn.stream == stream,
            conn.peer_addr == peer_addr,
            conn.is_initiator == is_initiator,
            conn.protocol == protocol,
    {
        Connection { stream, peer_addr, is_initiator, protocol }
    }

    /// Takes a connection record apart: stream, peer address, initiator flag
    /// and protocol identifier, in this order.
    pub fn into_parts(self) -> (parts: (S, SocketAddress, bool, String))
        ensures
            parts.0 == self.stream,
            parts.1 == self.peer_addr,
            parts.2 == self.is_initiator,
            parts.3 == self.protocol,
    {
        (self.stream, self.peer_addr, self.is_initiator, self.protocol)
    }
}

} // verus!
