//! A connection multiplexer for peer-to-peer networking.
//!
//! Several transports, one per protocol, are presented as a single logical
//! transport: one local address, one `connect`, one sequence of established
//! connections. This crate holds the decisions of that multiplexer as
//! verified, I/O-free code: which address each protocol is bound to, which
//! protocol is polled next, and which of several connections to the same
//! peer is kept.

pub mod addr;
pub mod arbiter;
pub mod bind;
pub mod connection;
pub mod poll;
pub mod protocol;
pub mod stream;
pub mod transport;

pub use addr::SocketAddress;
pub use arbiter::Arbiter;
pub use bind::{BindStep, BindTarget, Binder};
pub use connection::Connection;
pub use poll::{PollAction, PollRequest, Polled};
pub use protocol::Protocol;
pub use stream::CombinedStream;
pub use transport::CombinedTransport;
