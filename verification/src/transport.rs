//! The multiplexer: several transports behind one.
//!
//! [`CombinedTransport`] holds what the multiplexer knows and decides: the
//! local address that all protocols share, the protocols in their priority
//! order, and the arbiter's connected peers. The transports themselves, and
//! the polling of them, belong to the caller, which hands each outcome to
//! the multiplexer and is told what to do next.

use vstd::prelude::*;
use crate::addr::SocketAddress;
use crate::arbiter::{admits, peers_after, Arbiter};
use crate::connection::Connection;
use crate::poll::{action_after_idle, request_at, PollAction, PollRequest, Polled};
use crate::protocol::Protocol;
use crate::stream::CombinedStream;

verus! {

/// The multiplexer's state as plain values.
pub struct TransportView {
    /// The address that every protocol is bound to.
    pub local_addr: SocketAddress,
    /// The protocols, in priority order.
    pub protocols: Seq<Protocol>,
    /// The peers to which an outbound connection was surfaced, in the order
    /// in which that happened.
    pub peers: Seq<SocketAddress>,
}

/// Several transports, one per protocol, presented as a single one.
#[derive(Debug)]
pub struct CombinedTransport {
    local_addr: SocketAddress,
    protocols: Vec<Protocol>,
    arbiter: Arbiter,
}

impl View for CombinedTransport {
    type V = TransportView;

    closed spec fn view(&self) -> TransportView {
        TransportView {
            local_addr: self.local_addr,
            protocols: self.protocols@,
            peers: self.arbiter.peers(),
        }
    }
}

/// Whether `out` is the connection `conn` with its stream passed through
/// `map` and everything else as it was.
pub open spec fn unified<T, S, F: Fn(T) -> S>(
    map: F,
    conn: Connection<T>,
    out: Connection<S>,
) -> bool {
    &&& call_ensures(map, (conn.stream,), out.stream)
    &&& out.peer_addr == conn.peer_addr
    &&& out.is_initiator == conn.is_initiator
    &&& out.protocol == conn.protocol
}

/// Whether `item` is what the multiplexer surfaces for the completed
/// connection `conn` when `peers` are connected: the unified connection if
/// the arbiter admits it, nothing if not, and never an error.
pub open spec fn surfaced<T, S, E, F: Fn(T) -> S>(
    peers: Seq<SocketAddress>,
    map: F,
    conn: Connection<T>,
    item: Option<Result<Connection<S>, E>>,
) -> bool {
    match item {
        Some(Ok(out)) => admits(peers, conn.peer_addr, conn.is_initiator) && unified(map, conn, out),
        Some(Err(_)) => false,
        None => !admits(peers, conn.peer_addr, conn.is_initiator),
    }
}

/// Whether `item` is what the multiplexer surfaces for the outcome `polled`
/// of polling one transport: nothing where the transport had nothing or has
/// ended, the error of a failed attempt, and for a completed connection what
/// the arbiter decides.
pub open spec fn surfaced_from_poll<T, S, E, F: Fn(T) -> S>(
    peers: Seq<SocketAddress>,
    map: F,
    polled: Polled<T, E>,
    item: Option<Result<Connection<S>, E>>,
) -> bool {
    match polled {
        Polled::Pending => item is None,
        Polled::Finished => item is None,
        Polled::Failed(err) => item == Some(Err::<Connection<S>, E>(err)),
        Polled::Connected(conn) => surfaced(peers, map, conn, item),
    }
}

/// The connected peers after the outcome `polled` was handled: only a
/// completed connection can change them.
pub open spec fn peers_after_poll<T, E>(
    peers: Seq<SocketAddress>,
    polled: Polled<T, E>,
) -> Seq<SocketAddress> {
    match polled {
        Polled::Connected(conn) => peers_after(peers, conn.peer_addr, conn.is_initiator),
        _ => peers,
    }
}

impl CombinedTransport {
    /// There is a protocol to poll, and no peer is held twice.
    pub closed spec fn wf(&self) -> bool {
        &&& self.protocols@.len() > 0
        &&& self.arbiter.wf()
    }

    /// A well-formed multiplexer has at least one protocol and holds no peer
    /// twice.
    pub proof fn lemma_wf(&self)
        requires
            self.wf(),
        ensures
            self@.protocols.len() > 0,
            self@.peers.no_duplicates(),
    {
    }

    /// The multiplexer of the given protocols, all bound to `local_addr`,
    /// before any connection was completed.
    pub(crate) fn bound_to(local_addr: SocketAddress, protocols: Vec<Protocol>) -> (transport: Self)
        requires
            protocols@.len() > 0,
        ensures
            transport.wf(),
            transport@ == (TransportView { local_addr, protocols: protocols@, peers: Seq::empty() }),
    {
        CombinedTransport { local_addr, protocols, arbiter: Arbiter::new() }
    }

    /// The address that all protocols are bound to.
    pub fn local_addr(&self) -> (addr: SocketAddress)
        ensures
            addr == self@.local_addr,
    {
        self.local_addr
    }

    /// The number of peers to which an outbound connection was surfaced.
    pub fn connected_len(&self) -> (n: usize)
        ensures
            n == self@.peers.len(),
    {
        self.arbiter.len()
    }

    /// Whether an outbound connection to `peer` was surfaced before.
    pub fn is_connected(&self, peer: &SocketAddress) -> (found: bool)
        ensures
            found == self@.peers.contains(*peer),
    {
        self.arbiter.contains(peer)
    }

    /// The connect requests that one call to connect to `peer_addr` stands
    /// for: one for every protocol, in priority order, each to that address.
    /// The caller forwards each to the transport of its protocol and does not
    /// wait for any of them.
    pub fn connect(&self, peer_addr: SocketAddress) -> (requests: Vec<(Protocol, SocketAddress)>)
        ensures
            requests@.len() == self@.protocols.len(),
            forall|i: int|
                0 <= i < requests@.len() ==> #[trigger] requests@[i] == (
                    self@.protocols[i],
                    peer_addr,
                ),
    {
        let mut requests: Vec<(Protocol, SocketAddress)> = Vec::new();
        let mut i: usize = 0;
        while i < self.protocols.len()
            invariant
                i <= self.protocols@.len(),
                requests@.len() == i,
                forall|j: int|
                    0 <= j < i ==> #[trigger] requests@[j] == (self.protocols@[j], peer_addr),
            decreases self.protocols@.len() - i,
        {
            requests.push((self.protocols[i], peer_addr));
            i += 1;
        }
        requests
    }

    /// Passes a completed connection through the arbiter. An admitted one is
    /// surfaced with its stream turned into a unified stream by `map`; one
    /// that is turned away is dropped.
    pub fn on_connection<T, A, B, E, F>(
        &mut self,
        conn: Connection<T>,
        map: F,
    ) -> (item: Option<Result<Connection<CombinedStream<A, B>>, E>>) where
        F: Fn(T) -> CombinedStream<A, B>,

        requires
            old(self).wf(),
            call_requires(map, (conn.stream,)),
        ensures
            final(self).wf(),
            final(self)@.local_addr == old(self)@.local_addr,
            final(self)@.protocols == old(self)@.protocols,
            final(self)@.peers == peers_after(old(self)@.peers, conn.peer_addr, conn.is_initiator),
            surfaced(old(self)@.peers, map, conn, item),
            conn.is_initiator ==> final(self)@.peers.contains(conn.peer_addr),
    {
        let (stream, peer_addr, is_initiator, protocol) = conn.into_parts();
        let take_connection = self.arbiter.arbitrate(peer_addr, is_initiator);
        if take_connection {
            let stream = map(stream);
            let conn = Connection::new(stream, peer_addr, is_initiator, protocol);
            Some(Ok(conn))
        } else {
            None
        }
    }

    /// Handles the outcome of polling one transport: surfaces an error as it
    /// is, passes a completed connection through the arbiter, and has nothing
    /// to surface otherwise.
    pub fn on_poll_connection<T, A, B, E, F>(
        &mut self,
        polled: Polled<T, E>,
        map: F,
    ) -> (item: Option<Result<Connection<CombinedStream<A, B>>, E>>) where
        F: Fn(T) -> CombinedStream<A, B>,

        requires
            old(self).wf(),
            polled matches Polled::Connected(conn) ==> call_requires(map, (conn.stream,)),
        ensures
            final(self).wf(),
            final(self)@.local_addr == old(self)@.local_addr,
            final(self)@.protocols == old(self)@.protocols,
            final(self)@.peers == peers_after_poll(old(self)@.peers, polled),
            polled matches Polled::Connected(conn) ==> (conn.is_initiator
                ==> final(self)@.peers.contains(conn.peer_addr)),
            surfaced_from_poll(old(self)@.peers, map, polled, item),
    {
        match polled {
            Polled::Pending => None,
            Polled::Finished => None,
            Polled::Failed(err) => Some(Err(err)),
            Polled::Connected(conn) => self.on_connection(conn, map),
        }
    }

    /// The first step of a pass over the transports: the protocol of highest
    /// priority is polled first.
    pub fn poll_first(&self) -> (request: PollRequest)
        requires
            self.wf(),
        ensures
            Some(request) == request_at(self@.protocols, 0),
    {
        PollRequest { index: 0, protocol: self.protocols[0] }
    }

    /// One step of a pass over the transports. `polled` is what the
    /// transport at place `index` of the priority order yielded. An item that
    /// it gives rise to ends the pass and goes to the caller; otherwise the
    /// next protocol is polled, and after the last one the pass ends with
    /// nothing ready.
    pub fn poll_next<T, A, B, E, F>(
        &mut self,
        index: usize,
        polled: Polled<T, E>,
        map: F,
    ) -> (action: PollAction<CombinedStream<A, B>, E>) where
        F: Fn(T) -> CombinedStream<A, B>,

        requires
            old(self).wf(),
            polled matches Polled::Connected(conn) ==> call_requires(map, (conn.stream,)),
        ensures
            final(self).wf(),
            final(self)@.local_addr == old(self)@.local_addr,
            final(self)@.protocols == old(self)@.protocols,
            final(self)@.peers == peers_after_poll(old(self)@.peers, polled),
            polled matches Polled::Connected(conn) ==> (conn.is_initiator
                ==> final(self)@.peers.contains(conn.peer_addr)),
            surfaced_from_poll(old(self)@.peers, map, polled, action.item()),
            action.item() is None ==> action == action_after_idle::<CombinedStream<A, B>, E>(
                old(self)@.protocols,
                index as int,
            ),
    {
        match self.on_poll_connection(polled, map) {
            Some(item) => PollAction::Ready(item),
            None => {
                if index < self.protocols.len() - 1 {
                    let next: usize = index + 1;
                    PollAction::Poll(PollRequest { index: next, protocol: self.protocols[next] })
                } else {
                    PollAction::Pending
                }
            },
        }
    }
}

} // verus!
