//! The unified stream: one type over the streams of all protocols.

use vstd::prelude::*;
use crate::addr::SocketAddress;
use crate::protocol::{protocol_name, Protocol};

verus! {

/// A stream of one of the supported protocols. Each variant owns the stream
/// of its protocol; nothing is added to it.
pub enum CombinedStream<T, U> {
    Tcp(T),
    Utp(U),
}

/// The name under which a unified stream of a protocol shows itself when
/// printed for inspection.
pub open spec fn stream_label(protocol: Protocol) -> Seq<char> {
    match protocol {
        Protocol::Tcp => "CombinedStream::Tcp"@,
        Protocol::Utp => "CombinedStream::Utp"@,
    }
}

impl<T, U> CombinedStream<T, U> {
    /// The protocol whose stream this is.
    pub open spec fn carrier(&self) -> Protocol {
        match self {
            CombinedStream::Tcp(_) => Protocol::Tcp,
            CombinedStream::Utp(_) => Protocol::Utp,
        }
    }

    /// The protocol whose stream this is.
    pub fn kind(&self) -> (protocol: Protocol)
        ensures
            protocol == self.carrier(),
    {
        match self {
            CombinedStream::Tcp(_) => Protocol::Tcp,
            CombinedStream::Utp(_) => Protocol::Utp,
        }
    }

    /// The identifier of the protocol that produced this stream: `"tcp"` or
    /// `"utp"`.
    pub fn protocol(&self) -> (name: String)
        ensures
            name@ == protocol_name(self.carrier()),
    {
        self.kind().name()
    }

    /// The address of the peer at the other end. It is asked of the stream
    /// inside, by the lookup that belongs to its protocol: `tcp_peer` may
    /// find that the stream cannot tell, `utp_peer` always has an answer.
    /// The caller sees to it that the stream inside can tell.
    pub fn peer_addr<F, G>(&self, tcp_peer: F, utp_peer: G) -> (addr: SocketAddress) where
        F: Fn(&T) -> Option<SocketAddress>,
        G: Fn(&U) -> SocketAddress,

        requires
            match self {
                CombinedStream::Tcp(stream) => call_requires(tcp_peer, (stream,)) && forall|
                    found: Option<SocketAddress>,
                | call_ensures(tcp_peer, (stream,), found) ==> found is Some,
                CombinedStream::Utp(stream) => call_requires(utp_peer, (stream,)),
            },
        ensures
            match self {
                CombinedStream::Tcp(stream) => call_ensures(tcp_peer, (stream,), Some(addr)),
                CombinedStream::Utp(stream) => call_ensures(utp_peer, (stream,), addr),
            },
    {
        match self {
            CombinedStream::Tcp(stream) => tcp_peer(stream).unwrap(),
            CombinedStream::Utp(stream) => utp_peer(stream),
        }
    }

    /// The text that stands for this stream when it is printed for
    /// inspection: the type's name and the variant's, without the stream
    /// inside.
    pub fn label(&self) -> (text: String)
        ensures
            text@ == stream_label(self.carrier()),
    {
        match self {
            CombinedStream::Tcp(_) => "CombinedStream::Tcp".to_owned(),
            CombinedStream::Utp(_) => "CombinedStream::Utp".to_owned(),
        }
    }
}

} // verus!
