//! The protocols that the multiplexer can carry connections over.

use vstd::prelude::*;

verus! {

/// A protocol that an underlying transport speaks.
#[derive(Clone, Copy, Debug, PartialEq, Eq, Hash, Structural)]
pub enum Protocol {
    Tcp,
    Utp,
}

/// The stable identifier of a protocol, as a sequence of characters.
pub open spec fn protocol_name(protocol: Protocol) -> Seq<char> {
    match protocol {
        Protocol::Tcp => seq!['t', 'c', 'p'],
        Protocol::Utp => seq!['u', 't', 'p'],
    }
}

impl Protocol {
    /// The stable identifier of this protocol: `"tcp"` or `"utp"`.
    pub fn name(&self) -> (name: String)
        ensures
            name@ == protocol_name(*self),
    {
        match self {
            Protocol::Tcp => {
                proof {
                    reveal_strlit("tcp");
                }
                assert("tcp"@ =~= protocol_name(Protocol::Tcp));
                "tcp".to_owned()
            },
            Protocol::Utp => {
                proof {
                    reveal_strlit("utp");
                }
                assert("utp"@ =~= protocol_name(Protocol::Utp));
                "utp".to_owned()
            },
        }
    }
}

} // verus!
