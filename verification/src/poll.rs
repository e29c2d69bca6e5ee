//! What polling a transport yields, and what the multiplexer does next.

use vstd::prelude::*;
use crate::connection::Connection;
use crate::protocol::Protocol;

verus! {

/// What one poll of an underlying transport yielded.
pub enum Polled<T, E> {
    /// Nothing is ready yet.
    Pending,
    /// The transport's sequence of connections has ended.
    Finished,
    /// A connection attempt failed.
    Failed(E),
    /// A connection was completed.
    Connected(Connection<T>),
}

/// A request to poll one transport: the protocol's place in the priority
/// order, and the protocol.
#[derive(Clone, Copy, Debug, PartialEq, Eq, Structural)]
pub struct PollRequest {
    pub index: usize,
    pub protocol: Protocol,
}

/// What the multiplexer does after a transport was polled.
pub enum PollAction<S, E> {
    /// Poll the transport of the next protocol in the priority order.
    Poll(PollRequest),
    /// Hand this item to the caller. No further transport is polled in this
    /// pass.
    Ready(Result<Connection<S>, E>),
    /// Every transport was polled and none had an item to hand on.
    Pending,
}

impl<S, E> PollAction<S, E> {
    /// The item that this action hands to the caller, if it hands one.
    pub open spec fn item(self) -> Option<Result<Connection<S>, E>> {
        match self {
            PollAction::Ready(item) => Some(item),
            _ => None,
        }
    }
}

/// The request for the protocol at place `index` of the priority order, if
/// there is one.
pub open spec fn request_at(protocols: Seq<Protocol>, index: int) -> Option<PollRequest> {
    if 0 <= index < protocols.len() && index <= usize::MAX {
        Some(PollRequest { index: index as usize, protocol: protocols[index] })
    } else {
        None
    }
}

/// What follows when the transport at place `index` had nothing to hand on:
/// the next protocol in the priority order is polled, and after the last one
/// the pass ends without an item.
pub open spec fn action_after_idle<S, E>(protocols: Seq<Protocol>, index: int) -> PollAction<
    S,
    E,
> {
    match request_at(protocols, index + 1) {
        Some(request) => PollAction::Poll(request),
        None => PollAction::Pending,
    }
}

} // verus!
