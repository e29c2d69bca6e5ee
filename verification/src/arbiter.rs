//! The connection arbiter.
//!
//! When the same peer becomes reachable over more than one protocol, only
//! one locally-initiated connection to it is kept. The arbiter remembers the
//! peers to which such a connection was admitted and turns later ones away.
//! Connections that the peer initiated are always admitted.
//!
//! The rule is stated here over sequences of addresses; [`Arbiter`] is the
//! executable form of it.

use vstd::prelude::*;
use crate::addr::SocketAddress;

verus! {

/// Whether a completed connection is admitted, given the peers connected so
/// far: an inbound one always, an outbound one only to a peer not yet among
/// them.
pub open spec fn admits(
    peers: Seq<SocketAddress>,
    peer: SocketAddress,
    is_initiator: bool,
) -> bool {
    !is_initiator || !peers.contains(peer)
}

/// The connected peers after one completed connection was arbitrated: an
/// admitted outbound connection adds its peer at the end, anything else
/// leaves them as they were.
pub open spec fn peers_after(
    peers: Seq<SocketAddress>,
    peer: SocketAddress,
    is_initiator: bool,
) -> Seq<SocketAddress> {
    if is_initiator && !peers.contains(peer) {
        peers.push(peer)
    } else {
        peers
    }
}

/// The connected peers after a whole sequence of completed connections, each
/// given as its peer address and initiator flag, was arbitrated in order.
pub open spec fn peers_after_all(
    peers: Seq<SocketAddress>,
    completed: Seq<(SocketAddress, bool)>,
) -> Seq<SocketAddress>
    decreases completed.len(),
{
    if completed.len() == 0 {
        peers
    } else {
        peers_after(
            peers_after_all(peers, completed.drop_last()),
            completed.last().0,
            completed.last().1,
        )
    }
}

/// How many connections of a sequence are outbound and admitted when the
/// sequence is arbitrated in order.
pub open spec fn admitted_outbound(
    peers: Seq<SocketAddress>,
    completed: Seq<(SocketAddress, bool)>,
) -> nat
    decreases completed.len(),
{
    if completed.len() == 0 {
        0
    } else {
        let before = peers_after_all(peers, completed.drop_last());
        let last = completed.last();
        let one: nat = if last.1 && admits(before, last.0, last.1) {
            1
        } else {
            0
        };
        admitted_outbound(peers, completed.drop_last()) + one
    }
}

/// An inbound connection is admitted whatever the connected peers are, and
/// leaves them unchanged.
pub proof fn lemma_inbound_always_admitted(peers: Seq<SocketAddress>, peer: SocketAddress)
    ensures
        admits(peers, peer, false),
        peers_after(peers, peer, false) == peers,
{
}

/// An outbound connection is admitted exactly when its peer is not yet
/// connected; once admitted, the peer is connected, and a further outbound
/// connection to it is turned away.
pub proof fn lemma_outbound_admitted_once(peers: Seq<SocketAddress>, peer: SocketAddress)
    ensures
        admits(peers, peer, true) <==> !peers.contains(peer),
        peers_after(peers, peer, true).contains(peer),
        !admits(peers_after(peers, peer, true), peer, true),
{
    if !peers.contains(peer) {
        let grown = peers.push(peer);
        assert(grown[peers.len() as int] == peer);
    }
}

/// Arbitrating one connection keeps the connected peers free of duplicates,
/// keeps every peer that was connected, and adds none but the peer of the
/// connection.
pub proof fn lemma_peers_after(peers: Seq<SocketAddress>, peer: SocketAddress, is_initiator: bool)
    requires
        peers.no_duplicates(),
    ensures
        peers_after(peers, peer, is_initiator).no_duplicates(),
        peers.is_prefix_of(peers_after(peers, peer, is_initiator)),
        forall|a: SocketAddress|
            #[trigger] peers_after(peers, peer, is_initiator).contains(a) <==> peers.contains(a)
                || (is_initiator && a == peer),
{
    let after = peers_after(peers, peer, is_initiator);
    if is_initiator && !peers.contains(peer) {
        assert forall|i: int, j: int| 0 <= i < after.len() && 0 <= j < after.len() && i != j implies after[i]
            != after[j] by {
            if i < peers.len() && j < peers.len() {
                assert(peers[i] != peers[j]);
            } else if i < peers.len() {
                assert(peers.contains(peers[i]));
            } else {
                assert(peers.contains(peers[j]));
            }
        }
        assert forall|a: SocketAddress| after.contains(a) <==> peers.contains(a) || a == peer by {
            if after.contains(a) {
                let i = choose|i: int| 0 <= i < after.len() && after[i] == a;
                if i < peers.len() {
                    assert(peers[i] == a);
                }
            }
            if peers.contains(a) {
                let i = choose|i: int| 0 <= i < peers.len() && peers[i] == a;
                assert(after[i] == a);
            }
            if a == peer {
                assert(after[peers.len() as int] == a);
            }
        }
    }
}

/// For every sequence of completed connections, arbitrated in order from
/// connected peers without duplicates: the connected peers hold each address
/// at most once; they only grow; an address is among them exactly if it was
/// there before or is the peer of an outbound connection of the sequence; and
/// their number has grown by the number of outbound connections admitted.
pub proof fn lemma_peers_after_all(peers: Seq<SocketAddress>, completed: Seq<(SocketAddress, bool)>)
    requires
        peers.no_duplicates(),
    ensures
        peers_after_all(peers, completed).no_duplicates(),
        peers.is_prefix_of(peers_after_all(peers, completed)),
        forall|a: SocketAddress|
            #[trigger] peers_after_all(peers, completed).contains(a) <==> peers.contains(a)
                || completed.contains((a, true)),
        peers_after_all(peers, completed).len() == peers.len() + admitted_outbound(
            peers,
            completed,
        ),
    decreases completed.len(),
{
    let after = peers_after_all(peers, completed);
    if completed.len() == 0 {
        assert forall|a: SocketAddress| !completed.contains((a, true)) by {}
    } else {
        let earlier = completed.drop_last();
        let last = completed.last();
        let before = peers_after_all(peers, earlier);
        lemma_peers_after_all(peers, earlier);
        lemma_peers_after(before, last.0, last.1);
        assert forall|a: SocketAddress|
            after.contains(a) <==> peers.contains(a) || completed.contains((a, true)) by {
            assert(after.contains(a) <==> before.contains(a) || (last.1 && a == last.0));
            assert(before.contains(a) <==> peers.contains(a) || earlier.contains((a, true)));
            if earlier.contains((a, true)) {
                let i = choose|i: int| 0 <= i < earlier.len() && earlier[i] == (a, true);
                assert(completed[i] == (a, true));
            }
            if last.1 && a == last.0 {
                assert(completed[completed.len() - 1] == (a, true));
            }
            if completed.contains((a, true)) {
                let i = choose|i: int| 0 <= i < completed.len() && completed[i] == (a, true);
                if i < earlier.len() {
                    assert(earlier[i] == (a, true));
                } else {
                    assert(last == (a, true));
                }
            }
        }
    }
}

/// The set of connected peers, with the decision rule over it.
#[derive(Debug)]
pub struct Arbiter {
    connected: Vec<SocketAddress>,
}

impl Arbiter {
    /// The connected peers, in the order in which they were admitted.
    pub closed spec fn peers(&self) -> Seq<SocketAddress> {
        self.connected@
    }

    /// No address is held twice.
    pub open spec fn wf(&self) -> bool {
        self.peers().no_duplicates()
    }

    /// An arbiter that has admitted nothing yet.
    pub fn new() -> (arbiter: Self)
        ensures
            arbiter.wf(),
            arbiter.peers() == Seq::<SocketAddress>::empty(),
    {
        Arbiter { connected: Vec::new() }
    }

    /// The number of connected peers.
    pub fn len(&self) -> (n: usize)
        ensures
            n == self.peers().len(),
    {
        self.connected.len()
    }

    /// Whether an outbound connection to `peer` was admitted before.
    pub fn contains(&self, peer: &SocketAddress) -> (found: bool)
        ensures
            found == self.peers().contains(*peer),
    {
        let mut i: usize = 0;
        while i < self.connected.len()
            invariant
                i <= self.connected@.len(),
                forall|j: int| 0 <= j < i ==> self.connected@[j] != *peer,
            decreases self.connected@.len() - i,
        {
            if self.connected[i] == *peer {
                return true;
            }
            i += 1;
        }
        false
    }

    /// Decides whether a completed connection is kept, and remembers the peer
    /// of an outbound one that is.
    pub fn arbitrate(&mut self, peer: SocketAddress, is_initiator: bool) -> (take: bool)
        requires
            old(self).wf(),
        ensures
            final(self).wf(),
            take == admits(old(self).peers(), peer, is_initiator),
            final(self).peers() == peers_after(old(self).peers(), peer, is_initiator),
            is_initiator ==> final(self).peers().contains(peer),
    {
        proof {
            lemma_peers_after(self.peers(), peer, is_initiator);
        }
        if !is_initiator {
            true
        } else if !self.contains(&peer) {
            self.connected.push(peer);
            true
        } else {
            false
        }
    }
}

} // verus!
