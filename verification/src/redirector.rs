//! The redirector's decisions: which packets it answers with the address of
//! the main server, and which with an empty response.

use vstd::prelude::*;
use crate::components::{
    component_values, components_from_header, redirect_component, Components,
    GET_SERVER_INSTANCE_COMMAND, REDIRECTOR_COMPONENT,
};
use crate::models::{InstanceDetails, InstanceNet};
use crate::packet::{response_header, Header};
use crate::{EXTERNAL_HOST, MAIN_PORT};

verus! {

/// The redirector's answer to one packet from a client.
pub enum RedirectReply {
    /// Answer with the details of the main server instance; the exchange
    /// with this client is then over.
    Instance { response: Header, details: InstanceDetails },
    /// Answer with an empty response and wait for the next packet.
    Empty { response: Header },
}

/// A packet with this header asks the redirector for the server instance.
pub open spec fn is_redirect_request(h: Header) -> bool {
    component_values(components_from_header(h)) == (REDIRECTOR_COMPONENT, GET_SERVER_INSTANCE_COMMAND)
}

/// The instance details the redirector hands out: the external host and the
/// main port, without SSL.
pub open spec fn is_redirect_details(d: InstanceDetails) -> bool {
    &&& d.net.host@ == EXTERNAL_HOST@
    &&& d.net.port == MAIN_PORT
    &&& !d.secure
}

/// The details of the main server instance that clients are sent to.
pub fn redirect_details() -> (d: InstanceDetails)
    ensures
        is_redirect_details(d),
{
    let host = String::from_str(EXTERNAL_HOST);
    let net = InstanceNet::from((host, MAIN_PORT));
    InstanceDetails { net, secure: false }
}

/// Decides the answer to a packet with the given header: a request for the
/// server instance is answered with the main server's details and ends the
/// exchange; any other packet gets an empty response. Either response
/// carries the packet's component, command, error and id with the type
/// `Response`.
pub fn handle_packet(header: &Header) -> (reply: RedirectReply)
    ensures
        is_redirect_request(*header) ==> (reply matches RedirectReply::Instance { response, details }
            && response == response_header(*header) && is_redirect_details(details)),
        !is_redirect_request(*header) ==> reply == (RedirectReply::Empty { response: response_header(*header) }),
{
    let component = Components::from_header(header);
    if component == redirect_component() {
        RedirectReply::Instance { response: header.response(), details: redirect_details() }
    } else {
        RedirectReply::Empty { response: header.response() }
    }
}

impl RedirectReply {
    /// Whether the exchange with the client is over after this answer.
    pub fn is_final(&self) -> (b: bool)
        ensures
            b == (self is Instance),
    {
        match self {
            RedirectReply::Instance { .. } => true,
            RedirectReply::Empty { .. } => false,
        }
    }
}

} // verus!
