//! The relay's decisions: each packet read from one side of a proxied
//! connection is handed unchanged to the writer of the other side, until a
//! read fails.

use vstd::prelude::*;
use blaze_pk::packet::Packet;

verus! {

/// A side of a proxied connection.
#[derive(Debug, Clone, Copy, PartialEq, Eq, Structural)]
pub enum Side {
    /// The game client connected to this proxy
    Client,
    /// The official server this proxy connected to
    Server,
}

/// The side opposite to `s`.
pub open spec fn other_side(s: Side) -> Side {
    match s {
        Side::Client => Side::Server,
        Side::Server => Side::Client,
    }
}

impl Side {
    /// The side opposite to this one: packets read from this side are
    /// written to it.
    pub fn other(&self) -> (o: Side)
        ensures
            o == other_side(*self),
    {
        match self {
            Side::Client => Side::Server,
            Side::Server => Side::Client,
        }
    }

    /// The name of this side as shown in the packet log.
    pub fn name(&self) -> (n: &'static str)
        ensures
            *self == Side::Client ==> n@ == "Client"@,
            *self == Side::Server ==> n@ == "Server"@,
    {
        match self {
            Side::Client => "Client",
            Side::Server => "Server",
        }
    }
}

/// What a relay reader does after one read from its side.
pub enum RelayStep {
    /// Hand this packet, unchanged, to the writer of side `to` and read
    /// again.
    Forward { packet: Packet, to: Side },
    /// Stop reading from this side.
    Stop,
}

/// Decides the relay's step after a read from side `from`: a packet that was
/// read is forwarded as it is to the other side; a failed read ends the relay
/// for this side.
pub fn relay_step(from: Side, read: Result<Packet, std::io::Error>) -> (step: RelayStep)
    ensures
        read matches Ok(p) ==> step == (RelayStep::Forward { packet: p, to: other_side(from) }),
        read is Err ==> step is Stop,
{
    match read {
        Ok(packet) => RelayStep::Forward { packet, to: from.other() },
        Err(_) => RelayStep::Stop,
    }
}

} // verus!
