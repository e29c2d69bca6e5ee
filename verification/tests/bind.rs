use combined_transport::{BindStep, BindTarget, Binder, CombinedTransport, Protocol, SocketAddress};

fn v4(ip: u32, port: u16) -> SocketAddress {
    SocketAddress::V4 { ip, port }
}

fn next(step: BindStep<&'static str>) -> Binder {
    match step {
        BindStep::Next(binder) => binder,
        BindStep::Done(_) => panic!("all protocols are bound already"),
        BindStep::Failed(err) => panic!("bind failed: {}", err),
    }
}

fn done(step: BindStep<&'static str>) -> CombinedTransport {
    match step {
        BindStep::Done(transport) => transport,
        BindStep::Next(_) => panic!("a protocol is left to bind"),
        BindStep::Failed(err) => panic!("bind failed: {}", err),
    }
}

#[test]
fn first_protocol_is_bound_to_the_requested_address() {
    let binder = CombinedTransport::bind(vec![Protocol::Tcp, Protocol::Utp]);
    assert_eq!(binder.protocol(), Protocol::Tcp);
    assert_eq!(binder.target(), BindTarget::Requested);
}

#[test]
fn single_protocol_is_done_after_one_bind() {
    let binder = CombinedTransport::bind(vec![Protocol::Tcp]);
    let transport = done(binder.on_bound(Ok(v4(0x7f00_0001, 51000))));
    assert_eq!(transport.local_addr(), v4(0x7f00_0001, 51000));
    assert_eq!(transport.connected_len(), 0);
}

#[test]
fn later_protocols_are_bound_to_the_resolved_address() {
    let resolved = v4(0x7f00_0001, 51234);
    let binder = CombinedTransport::bind(vec![Protocol::Tcp, Protocol::Utp]);
    let binder = next(binder.on_bound(Ok(resolved)));
    assert_eq!(binder.protocol(), Protocol::Utp);
    assert_eq!(binder.target(), BindTarget::Resolved(resolved));
    let transport = done(binder.on_bound(Ok(resolved)));
    assert_eq!(transport.local_addr(), resolved);
}

#[test]
fn wildcard_bind_gives_every_protocol_the_same_address() {
    let resolved = v4(0, 40404);
    let protocols = vec![Protocol::Utp, Protocol::Tcp, Protocol::Utp, Protocol::Tcp];
    let mut binder = CombinedTransport::bind(protocols.clone());
    assert_eq!(binder.target(), BindTarget::Requested);
    for k in 1..protocols.len() {
        binder = next(binder.on_bound(Ok(v4(0, 40404 + (k as u16) - 1))));
        assert_eq!(binder.protocol(), protocols[k]);
        assert_eq!(binder.target(), BindTarget::Resolved(resolved));
    }
    let transport = done(binder.on_bound(Ok(v4(9, 9))));
    assert_eq!(transport.local_addr(), resolved);
}

#[test]
fn address_of_a_later_bind_is_not_taken() {
    let binder = CombinedTransport::bind(vec![Protocol::Tcp, Protocol::Utp]);
    let binder = next(binder.on_bound(Ok(v4(1, 1000))));
    let transport = done(binder.on_bound(Ok(v4(2, 2000))));
    assert_eq!(transport.local_addr(), v4(1, 1000));
}

#[test]
fn first_bind_failure_is_fatal() {
    let binder = CombinedTransport::bind(vec![Protocol::Tcp, Protocol::Utp]);
    match binder.on_bound(Err("address in use")) {
        BindStep::Failed(err) => assert_eq!(err, "address in use"),
        _ => panic!("a failed bind must end the attempt"),
    }
}

#[test]
fn later_bind_failure_is_fatal() {
    let binder = CombinedTransport::bind(vec![Protocol::Tcp, Protocol::Utp]);
    let binder = next(binder.on_bound(Ok(v4(1, 1000))));
    match binder.on_bound(Err("no permission")) {
        BindStep::Failed(err) => assert_eq!(err, "no permission"),
        _ => panic!("a failed bind must end the attempt"),
    }
}
