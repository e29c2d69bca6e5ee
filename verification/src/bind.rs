//! Binding every protocol to one address.
//!
//! The first protocol is bound to the address that the caller asked for,
//! which may leave the host or the port open. The address that this bind
//! resolved to is then the one that every other protocol is bound to, and
//! the local address of the multiplexer. A bind that fails ends the whole
//! attempt.
//!
//! The binds themselves are the caller's work. A [`Binder`] says which
//! protocol to bind next and to which address, and takes each outcome.

use vstd::prelude::*;
use crate::addr::SocketAddress;
use crate::protocol::Protocol;
use crate::transport::{CombinedTransport, TransportView};

verus! {

/// The address that a protocol is to be bound to.
#[derive(Clone, Copy, Debug, PartialEq, Eq, Structural)]
pub enum BindTarget {
    /// The address that the caller of the multiplexer asked for.
    Requested,
    /// This address, which an earlier bind resolved to.
    Resolved(SocketAddress),
}

/// A binder's state as plain values.
pub struct BinderView {
    /// The protocols, in priority order.
    pub protocols: Seq<Protocol>,
    /// How many of them are bound.
    pub bound: nat,
    /// The address that the first bind resolved to, once it is known.
    pub resolved: Option<SocketAddress>,
}

/// Where an attempt to bind all protocols stands, as plain values.
pub enum BindStepView<E> {
    /// A further protocol is to be bound.
    Next(BinderView),
    /// All protocols are bound.
    Done(TransportView),
    /// A bind failed.
    Failed(E),
}

/// The state before anything is bound.
pub open spec fn bind_start(protocols: Seq<Protocol>) -> BinderView {
    BinderView { protocols, bound: 0, resolved: None }
}

/// The address that the next protocol is to be bound to: the requested one
/// for the first protocol, the resolved one for all others.
pub open spec fn bind_target(binder: BinderView) -> BindTarget {
    match binder.resolved {
        None => BindTarget::Requested,
        Some(addr) => BindTarget::Resolved(addr),
    }
}

/// What follows the outcome of one bind. A failure ends the attempt. A
/// success of the first bind fixes the resolved address; the address that a
/// later bind reports is not looked at. After the last protocol the
/// multiplexer stands, with the resolved address as its local address and no
/// connected peers.
pub open spec fn bind_step<E>(
    binder: BinderView,
    outcome: Result<SocketAddress, E>,
) -> BindStepView<E> {
    match outcome {
        Err(err) => BindStepView::Failed(err),
        Ok(addr) => {
            let local_addr = match binder.resolved {
                Some(first) => first,
                None => addr,
            };
            if binder.bound + 1 >= binder.protocols.len() {
                BindStepView::Done(
                    TransportView {
                        local_addr,
                        protocols: binder.protocols,
                        peers: Seq::empty(),
                    },
                )
            } else {
                BindStepView::Next(
                    BinderView {
                        protocols: binder.protocols,
                        bound: binder.bound + 1,
                        resolved: Some(local_addr),
                    },
                )
            }
        },
    }
}

/// Where the attempt stands after the binds of the first protocols
/// succeeded, the k-th of them resolving to `resolved[k]`. Outcomes beyond
/// the last protocol are not looked at.
pub open spec fn bind_run(protocols: Seq<Protocol>, resolved: Seq<SocketAddress>) -> BindStepView<()>
    decreases resolved.len(),
{
    if resolved.len() == 0 {
        BindStepView::Next(bind_start(protocols))
    } else {
        match bind_run(protocols, resolved.drop_last()) {
            BindStepView::Next(binder) => bind_step(binder, Ok(resolved.last())),
            ended => ended,
        }
    }
}

/// Whatever addresses the single binds resolve to, every protocol after the
/// first is bound to the address that the first bind resolved to, and once
/// all protocols are bound that address is the multiplexer's local address.
pub proof fn lemma_one_address_for_all(protocols: Seq<Protocol>, resolved: Seq<SocketAddress>)
    requires
        protocols.len() > 0,
    ensures
        bind_target(bind_start(protocols)) == BindTarget::Requested,
        match bind_run(protocols, resolved) {
            BindStepView::Next(binder) => {
                &&& resolved.len() < protocols.len()
                &&& binder.protocols == protocols
                &&& binder.bound == resolved.len()
                &&& resolved.len() > 0 ==> binder.resolved == Some(resolved[0]) && bind_target(
                    binder,
                ) == BindTarget::Resolved(resolved[0])
                &&& resolved.len() == 0 ==> binder == bind_start(protocols)
            },
            BindStepView::Done(transport) => {
                &&& resolved.len() >= protocols.len()
                &&& transport.protocols == protocols
                &&& transport.local_addr == resolved[0]
                &&& transport.peers == Seq::<SocketAddress>::empty()
            },
            BindStepView::Failed(_) => false,
        },
    decreases resolved.len(),
{
    if resolved.len() > 0 {
        let earlier = resolved.drop_last();
        lemma_one_address_for_all(protocols, earlier);
        if earlier.len() > 0 {
            assert(earlier[0] == resolved[0]);
        }
    }
}

/// An attempt to bind all protocols, at a point where a further protocol is
/// to be bound.
#[derive(Debug)]
pub struct Binder {
    protocols: Vec<Protocol>,
    bound: usize,
    resolved: Option<SocketAddress>,
}

/// Where an attempt to bind all protocols stands after the outcome of one
/// bind.
pub enum BindStep<E> {
    /// A further protocol is to be bound.
    Next(Binder),
    /// All protocols are bound: the multiplexer stands.
    Done(CombinedTransport),
    /// A bind failed, with this error: there is no multiplexer.
    Failed(E),
}

impl View for Binder {
    type V = BinderView;

    closed spec fn view(&self) -> BinderView {
        BinderView { protocols: self.protocols@, bound: self.bound as nat, resolved: self.resolved }
    }
}

impl<E> View for BindStep<E> {
    type V = BindStepView<E>;

    open spec fn view(&self) -> BindStepView<E> {
        match self {
            BindStep::Next(binder) => BindStepView::Next(binder@),
            BindStep::Done(transport) => BindStepView::Done(transport@),
            BindStep::Failed(err) => BindStepView::Failed(*err),
        }
    }
}

impl<E> BindStep<E> {
    /// Whatever the step holds is well-formed.
    pub open spec fn wf(&self) -> bool {
        match self {
            BindStep::Next(binder) => binder.wf(),
            BindStep::Done(transport) => transport.wf(),
            BindStep::Failed(_) => true,
        }
    }
}

impl Binder {
    /// A protocol is left to bind, and the resolved address is known exactly
    /// when the first protocol is bound.
    pub open spec fn wf(&self) -> bool {
        &&& self@.bound < self@.protocols.len()
        &&& self@.bound == 0 <==> self@.resolved is None
    }

    /// The protocol to bind next.
    pub fn protocol(&self) -> (protocol: Protocol)
        requires
            self.wf(),
        ensures
            protocol == self@.protocols[self@.bound as int],
    {
        self.protocols[self.bound]
    }

    /// The address to bind the next protocol to.
    pub fn target(&self) -> (target: BindTarget)
        ensures
            target == bind_target(self@),
    {
        match self.resolved {
            None => BindTarget::Requested,
            Some(addr) => BindTarget::Resolved(addr),
        }
    }

    /// Takes the outcome of the bind that was asked for last: the address
    /// that it resolved to, or the error that it failed with.
    pub fn on_bound<E>(self, outcome: Result<SocketAddress, E>) -> (step: BindStep<E>)
        requires
            self.wf(),
        ensures
            step.wf(),
            step@ == bind_step(self@, outcome),
    {
        match outcome {
            Err(err) => BindStep::Failed(err),
            Ok(addr) => {
                let local_addr = match self.resolved {
                    Some(first) => first,
                    None => addr,
                };
                if self.bound >= self.protocols.len() - 1 {
                    BindStep::Done(CombinedTransport::bound_to(local_addr, self.protocols))
                } else {
                    BindStep::Next(
                        Binder {
                            protocols: self.protocols,
                            bound: self.bound + 1,
                            resolved: Some(local_addr),
                        },
                    )
                }
            },
        }
    }
}

impl CombinedTransport {
    /// Starts binding the given protocols, in priority order, to one
    /// address. The first of them is bound to the address that the caller
    /// asked for.
    pub fn bind(protocols: Vec<Protocol>) -> (binder: Binder)
        requires
            protocols@.len() > 0,
        ensures
            binder.wf(),
            binder@ == bind_start(protocols@),
    {
        Binder { protocols, bound: 0, resolved: None }
    }
}

} // verus!
