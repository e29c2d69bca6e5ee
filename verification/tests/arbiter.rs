use combined_transport::{Arbiter, SocketAddress};

fn v4(ip: u32, port: u16) -> SocketAddress {
    SocketAddress::V4 { ip, port }
}

#[test]
fn new_arbiter_knows_no_peer() {
    let arbiter = Arbiter::new();
    assert_eq!(arbiter.len(), 0);
    assert!(!arbiter.contains(&v4(0x7f00_0001, 4000)));
}

#[test]
fn first_outbound_connection_is_taken() {
    let mut arbiter = Arbiter::new();
    let peer = v4(0x7f00_0001, 4000);
    assert!(arbiter.arbitrate(peer, true));
    assert!(arbiter.contains(&peer));
    assert_eq!(arbiter.len(), 1);
}

#[test]
fn second_outbound_connection_to_same_peer_is_dropped() {
    let mut arbiter = Arbiter::new();
    let peer = v4(0x7f00_0001, 4000);
    assert!(arbiter.arbitrate(peer, true));
    assert!(!arbiter.arbitrate(peer, true));
    assert!(!arbiter.arbitrate(peer, true));
    assert_eq!(arbiter.len(), 1);
}

#[test]
fn inbound_connection_is_always_taken() {
    let mut arbiter = Arbiter::new();
    let peer = v4(0x0a00_0001, 9);
    assert!(arbiter.arbitrate(peer, false));
    assert!(arbiter.arbitrate(peer, false));
    assert_eq!(arbiter.len(), 0);
    assert!(arbiter.arbitrate(peer, true));
    assert!(arbiter.arbitrate(peer, false));
    assert!(arbiter.arbitrate(peer, false));
    assert_eq!(arbiter.len(), 1);
}

#[test]
fn inbound_connection_does_not_mark_the_peer() {
    let mut arbiter = Arbiter::new();
    let peer = v4(0x0a00_0001, 9);
    assert!(arbiter.arbitrate(peer, false));
    assert!(!arbiter.contains(&peer));
    assert!(arbiter.arbitrate(peer, true));
}

#[test]
fn each_peer_is_held_once() {
    let mut arbiter = Arbiter::new();
    let peers = [v4(1, 1), v4(2, 1), v4(1, 2), v4(1, 1), v4(2, 1), v4(3, 3), v4(1, 1)];
    let mut taken = 0;
    for peer in peers {
        if arbiter.arbitrate(peer, true) {
            taken += 1;
        }
    }
    assert_eq!(taken, 4);
    assert_eq!(arbiter.len(), 4);
    for peer in peers {
        assert!(arbiter.contains(&peer));
    }
}

#[test]
fn peers_differ_by_port() {
    let mut arbiter = Arbiter::new();
    assert!(arbiter.arbitrate(v4(0x7f00_0001, 4000), true));
    assert!(arbiter.arbitrate(v4(0x7f00_0001, 4001), true));
    assert!(!arbiter.arbitrate(v4(0x7f00_0001, 4000), true));
    assert_eq!(arbiter.len(), 2);
}

#[test]
fn peers_differ_by_address_family_and_scope() {
    let mut arbiter = Arbiter::new();
    let a = SocketAddress::V6 { ip: 1, port: 80, flowinfo: 0, scope_id: 0 };
    let b = SocketAddress::V6 { ip: 1, port: 80, flowinfo: 0, scope_id: 2 };
    let c = SocketAddress::V6 { ip: 1, port: 80, flowinfo: 7, scope_id: 0 };
    let d = SocketAddress::V4 { ip: 1, port: 80 };
    assert!(arbiter.arbitrate(a, true));
    assert!(arbiter.arbitrate(b, true));
    assert!(arbiter.arbitrate(c, true));
    assert!(arbiter.arbitrate(d, true));
    assert!(!arbiter.arbitrate(a, true));
    assert!(!arbiter.arbitrate(d, true));
    assert_eq!(arbiter.len(), 4);
}
