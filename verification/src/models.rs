//! The values exchanged with a redirector: the request for the main server
//! instance and the instance details given in reply.

use vstd::prelude::*;

verus! {

/// A port number.
pub type Port = u16;

/// The network address of a server instance.
pub struct InstanceNet {
    /// The host name or address of the instance
    pub host: String,
    /// The port of the instance
    pub port: Port,
}

/// The details of a server instance as given by a redirector.
pub struct InstanceDetails {
    /// The network address of the instance
    pub net: InstanceNet,
    /// Whether the instance must be reached over SSL
    pub secure: bool,
}

/// The request a client sends to a redirector to learn the main server
/// instance. Its contents are fixed.
pub struct InstanceRequest;

impl From<(String, Port)> for InstanceNet {
    fn from(value: (String, Port)) -> (net: InstanceNet) {
        InstanceNet { host: value.0, port: value.1 }
    }
}

impl vstd::std_specs::convert::FromSpecImpl<(String, Port)> for InstanceNet {
    open spec fn obeys_from_spec() -> bool {
        true
    }

    open spec fn from_spec(v: (String, Port)) -> InstanceNet {
        InstanceNet { host: v.0, port: v.1 }
    }
}

} // verus!
