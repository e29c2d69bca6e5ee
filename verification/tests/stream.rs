use combined_transport::{CombinedStream, Connection, Protocol, SocketAddress};

#[test]
fn protocol_names_are_stable() {
    assert_eq!(Protocol::Tcp.name(), "tcp");
    assert_eq!(Protocol::Utp.name(), "utp");
}

#[test]
fn stream_names_its_protocol() {
    let tcp: CombinedStream<u8, u16> = CombinedStream::Tcp(1);
    let utp: CombinedStream<u8, u16> = CombinedStream::Utp(2);
    assert_eq!(tcp.protocol(), "tcp");
    assert_eq!(utp.protocol(), "utp");
    assert_eq!(tcp.kind(), Protocol::Tcp);
    assert_eq!(utp.kind(), Protocol::Utp);
}

#[test]
fn stream_label_hides_the_stream_inside() {
    let tcp: CombinedStream<u8, u16> = CombinedStream::Tcp(1);
    let utp: CombinedStream<u8, u16> = CombinedStream::Utp(2);
    assert_eq!(tcp.label(), "CombinedStream::Tcp");
    assert_eq!(utp.label(), "CombinedStream::Utp");
}

#[test]
fn peer_addr_asks_the_stream_inside() {
    let tcp: CombinedStream<u16, u16> = CombinedStream::Tcp(10);
    let utp: CombinedStream<u16, u16> = CombinedStream::Utp(20);
    let tcp_peer = |s: &u16| Some(SocketAddress::V4 { ip: 1, port: *s });
    let utp_peer = |s: &u16| SocketAddress::V4 { ip: 2, port: *s };
    assert_eq!(tcp.peer_addr(tcp_peer, utp_peer), SocketAddress::V4 { ip: 1, port: 10 });
    assert_eq!(utp.peer_addr(tcp_peer, utp_peer), SocketAddress::V4 { ip: 2, port: 20 });
}

#[test]
fn peer_addr_of_utp_does_not_ask_tcp() {
    let utp: CombinedStream<u16, u16> = CombinedStream::Utp(20);
    let addr = utp.peer_addr(|_s: &u16| None, |s: &u16| SocketAddress::V4 { ip: 2, port: *s });
    assert_eq!(addr, SocketAddress::V4 { ip: 2, port: 20 });
}

#[test]
fn connection_keeps_its_parts() {
    let peer = SocketAddress::V6 { ip: 1, port: 4000, flowinfo: 0, scope_id: 3 };
    let conn = Connection::new(vec![1u8, 2, 3], peer, true, String::from("utp"));
    assert_eq!(conn.stream, vec![1u8, 2, 3]);
    assert_eq!(conn.peer_addr, peer);
    assert!(conn.is_initiator);
    assert_eq!(conn.protocol, "utp");
    let (stream, peer_addr, is_initiator, protocol) = conn.into_parts();
    assert_eq!(stream, vec![1u8, 2, 3]);
    assert_eq!(peer_addr, peer);
    assert!(is_initiator);
    assert_eq!(protocol, "utp");
}
