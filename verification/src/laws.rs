//! Properties that relate the redirector, the retriever and packet headers.

use vstd::prelude::*;
use crate::components::{
    component_values, components_from_header, components_from_values, Components, Redirector,
    GET_SERVER_INSTANCE_COMMAND, REDIRECTOR_COMPONENT,
};
use crate::models::InstanceDetails;
use crate::packet::{header_with_type, request_header, response_header, same_path, Header, PacketKind};
use crate::redirector::{is_redirect_details, is_redirect_request};
use crate::relay::{other_side, Side};
use crate::tdf::{
    instance_details_bytes, tdf_tag_bool, tdf_tag_group, tdf_tag_str, tdf_tag_u16, tdf_tag_u32,
    tdf_tag_union_start,
};
use crate::{EXTERNAL_HOST, MAIN_PORT};
use vstd::string::StringSliceAdditionalSpecFns;
use vstd::std_specs::cmp::PartialEqSpec;
use crate::retriever::{dns_query_text, is_loopback_addr, response_verdict, HostAddr, RetSession};

verus! {

/// A response made to a packet carries that packet's component, command and
/// id, so it always matches the packet it answers.
pub proof fn lemma_response_matches(h: Header)
    ensures
        same_path(response_header(h), h),
        response_header(h).id == h.id,
        response_header(h).ty == PacketKind::Response,
{
}

/// A retriever waiting for the response to `request` takes the response
/// made to that request as its response.
pub proof fn lemma_response_accepted(request: Header)
    ensures
        response_verdict(request, response_header(request)) is Accept,
{
}

/// An error packet always ends the wait for a response, whatever its
/// component and command, and only error packets end it with an error.
pub proof fn lemma_error_ends_wait(request: Header, h: Header)
    ensures
        (response_verdict(request, h) is Reject) <==> h.ty == PacketKind::Error,
{
}

/// Notification packets never end the wait; each goes to the notification
/// handler, whatever its component and command.
pub proof fn lemma_notify_handled(request: Header, h: Header)
    ensures
        (response_verdict(request, h) is Notify) <==> h.ty == PacketKind::Notify,
{
}

/// A packet that is neither a response, an error nor a notification never
/// ends the wait and is skipped.
pub proof fn lemma_others_skipped(request: Header, h: Header)
    requires
        h.ty != PacketKind::Response,
        h.ty != PacketKind::Error,
        h.ty != PacketKind::Notify,
    ensures
        response_verdict(request, h) is Skip,
{
}

/// The redirector hands out the server instance exactly for packets
/// addressed to the redirector's server instance command, whatever their
/// type, error or id.
pub proof fn lemma_redirect_request_path(h: Header)
    ensures
        is_redirect_request(h) <==> (h.component == REDIRECTOR_COMPONENT && h.command
            == GET_SERVER_INSTANCE_COMMAND),
{
}

/// The retriever's request for the main instance, whatever its id, is a
/// request the redirector answers with the server instance.
pub proof fn lemma_instance_request_redirected(id: u16)
    ensures
        is_redirect_request(request_header(id, REDIRECTOR_COMPONENT, GET_SERVER_INSTANCE_COMMAND)),
{
}

/// Successive requests of a session carry ids 0, 1, 2, ... in order: for
/// the session states `states` of a session from its creation (next id zero)
/// through calls of `request_sent`, each advancing the next id by one, the
/// request built in state `i` carries id `i`, for `component` and `command`.
pub proof fn lemma_session_request_ids(states: Seq<RetSession>, component: u16, command: u16)
    requires
        states.len() > 0,
        states[0].next_id() == 0,
        forall|i: int|
            0 <= i < states.len() - 1 ==> #[trigger] states[i + 1].next_id() == states[i].next_id() + 1,
    ensures
        forall|i: int|
            0 <= i < states.len() ==> #[trigger] states[i].next_id() == i && request_header(
                states[i].next_id(),
                component,
                command,
            ).id == i,
    decreases states.len(),
{
    if states.len() > 1 {
        let prefix = states.drop_last();
        assert forall|i: int| 0 <= i < prefix.len() - 1 implies #[trigger] prefix[i + 1].next_id()
            == prefix[i].next_id() + 1 by {
            assert(prefix[i + 1] == states[i + 1]);
            assert(prefix[i] == states[i]);
        }
        lemma_session_request_ids(prefix, component, command);
        assert forall|i: int| 0 <= i < states.len() implies #[trigger] states[i].next_id() == i
            && request_header(states[i].next_id(), component, command).id == i by {
            if i < states.len() - 1 {
                assert(prefix[i] == states[i]);
            } else {
                assert(prefix[i - 1] == states[i - 1]);
                assert(states[(i - 1) + 1].next_id() == states[i - 1].next_id() + 1);
            }
        }
    }
}

/// An IPv4 address is a loopback address exactly when its first octet is
/// 127 (the block 127.0.0.0/8); every other IPv4 address, public or
/// private, is kept by the host lookup.
pub proof fn lemma_ipv4_loopback(o: [u8; 4])
    ensures
        is_loopback_addr(HostAddr::V4(o)) <==> o@[0] == 127,
        o@[0] < 127 ==> !is_loopback_addr(HostAddr::V4(o)),
        o@[0] > 127 ==> !is_loopback_addr(HostAddr::V4(o)),
{
}

/// The only IPv6 loopback address is ::1: any address with a nonzero
/// segment among the first seven, or a last segment other than one, is not
/// loopback.
pub proof fn lemma_ipv6_loopback(s: [u16; 8])
    ensures
        is_loopback_addr(HostAddr::V6(s)) <==> (forall|i: int| 0 <= i < 7 ==> s@[i] == 0) && s@[7]
            == 1,
{
    if is_loopback_addr(HostAddr::V6(s)) {
        assert forall|i: int| 0 <= i < 7 implies s@[i] == 0 by {
            assert(s@[i] == seq![0u16, 0u16, 0u16, 0u16, 0u16, 0u16, 0u16, 1u16][i]);
        }
        assert(s@[7] == seq![0u16, 0u16, 0u16, 0u16, 0u16, 0u16, 0u16, 1u16][7]);
    }
    if (forall|i: int| 0 <= i < 7 ==> s@[i] == 0) && s@[7] == 1 {
        assert(s@[0] == 0 && s@[1] == 0 && s@[2] == 0 && s@[3] == 0 && s@[4] == 0 && s@[5] == 0
            && s@[6] == 0);
        assert(s@ =~= seq![0u16, 0u16, 0u16, 0u16, 0u16, 0u16, 0u16, 1u16]);
    }
}

/// A received packet ends the wait as the response exactly when it is a
/// response whose component and whose command both equal the request's; a
/// response differing in either is not taken.
pub proof fn lemma_accept_needs_component_and_command(request: Header, h: Header)
    ensures
        (response_verdict(request, h) is Accept) <==> (h.ty == PacketKind::Response && h.component
            == request.component && h.command == request.command),
        h.component != request.component ==> !(response_verdict(request, h) is Accept),
        h.command != request.command ==> !(response_verdict(request, h) is Accept),
{
}

/// A request header carries the requested id, component and command
/// unchanged, with no error and the type `Request`, for every id, component
/// and command.
pub proof fn lemma_request_header_fields(id: u16, component: u16, command: u16)
    ensures
        request_header(id, component, command).component == component,
        request_header(id, component, command).command == command,
        request_header(id, component, command).id == id,
        request_header(id, component, command).error == 0,
        request_header(id, component, command).ty == PacketKind::Request,
{
}

/// Requests for different components or commands have different headers:
/// no two targets share a request header.
pub proof fn lemma_request_header_injective(id: u16, c1: u16, m1: u16, c2: u16, m2: u16)
    ensures
        request_header(id, c1, m1) == request_header(id, c2, m2) ==> c1 == c2 && m1 == m2,
{
}

/// Only notify packets are identified as notify commands: a packet of any
/// other type is identified as a non-notify command, and a notify packet as
/// a notify command.
pub proof fn lemma_from_header_notify_only(h: Header)
    ensures
        h.ty != PacketKind::Notify ==> components_from_header(h) == components_from_values(
            h.component,
            h.command,
            false,
        ),
        h.ty == PacketKind::Notify ==> components_from_header(h) == components_from_values(
            h.component,
            h.command,
            true,
        ),
{
}

/// A request, response or error addressed to the redirector's server
/// instance command is identified as that command, whatever its error and
/// id.
pub proof fn lemma_from_header_get_server_instance(h: Header)
    requires
        h.component == 5,
        h.command == 1,
        h.ty != PacketKind::Notify,
    ensures
        components_from_header(h) == Components::Redirector(Redirector::GetServerInstance),
{
}

/// The HTTP DNS query for `host` is the fixed prefix, then `host` itself,
/// then the fixed suffix.
pub proof fn lemma_dns_query_names_host(host: Seq<char>)
    ensures
        ({
            let q = dns_query_text(host);
            let p = "https://dns.google/resolve?name="@;
            let s = "&type=A"@;
            &&& q.len() == (p.len() + host.len()) as int + s.len()
            &&& q.subrange(0, p.len() as int) == p
            &&& q.subrange(p.len() as int, (p.len() + host.len()) as int) == host
            &&& q.subrange((p.len() + host.len()) as int, q.len() as int) == s
        }),
{
    let q = dns_query_text(host);
    let p = "https://dns.google/resolve?name="@;
    let s = "&type=A"@;
    assert(q.subrange(0, p.len() as int) =~= p);
    assert(q.subrange(p.len() as int, (p.len() + host.len()) as int) =~= host);
    assert(q.subrange((p.len() + host.len()) as int, q.len() as int) =~= s);
}

/// Different hosts give different HTTP DNS queries: the query names the
/// host asked for and no other.
pub proof fn lemma_dns_query_injective(h1: Seq<char>, h2: Seq<char>)
    ensures
        dns_query_text(h1) == dns_query_text(h2) ==> h1 == h2,
{
    if dns_query_text(h1) == dns_query_text(h2) {
        lemma_dns_query_names_host(h1);
        lemma_dns_query_names_host(h2);
    }
}

/// Two headers address the same place exactly when both their components
/// and their commands are equal; type, error and id play no part.
pub proof fn lemma_same_path_fields(a: Header, b: Header)
    ensures
        same_path(a, b) <==> (a.component == b.component && a.command == b.command),
        a.component != b.component ==> !same_path(a, b),
        a.command != b.command ==> !same_path(a, b),
        same_path(a, b) == same_path(b, a),
{
}

/// Changing a header's type keeps its component, command, error and id; a
/// response is that change to `Response`.
pub proof fn lemma_with_type_keeps_fields(h: Header, ty: PacketKind)
    ensures
        header_with_type(h, ty).component == h.component,
        header_with_type(h, ty).command == h.command,
        header_with_type(h, ty).error == h.error,
        header_with_type(h, ty).id == h.id,
        header_with_type(h, ty).ty == ty,
        response_header(h).component == h.component,
        response_header(h).command == h.command,
        response_header(h).error == h.error,
        response_header(h).id == h.id,
        response_header(h).ty == PacketKind::Response,
{
}

/// How values name components: the redirector is component 5, its server
/// instance command is 1 (outside notify packets); any other command of the
/// redirector, and any command of a notify packet, is kept as an unknown
/// redirector command with its value; any other component is kept as an
/// unknown component with both values.
pub proof fn lemma_from_values_cases(component: u16, command: u16, notify: bool)
    ensures
        component == 5 && command == 1 && !notify ==> components_from_values(component, command, notify)
            == Components::Redirector(Redirector::GetServerInstance),
        component == 5 && (command != 1 || notify) ==> components_from_values(component, command, notify)
            == Components::Redirector(Redirector::Unknown(command)),
        component != 5 ==> components_from_values(component, command, notify) == Components::Unknown(
            component,
            command,
        ),
{
}

/// Components are equal exactly when their component values and their
/// command values are both equal, whatever variants name them.
pub proof fn lemma_components_eq(a: Components, b: Components)
    ensures
        a.eq_spec(&b) <==> (component_values(a).0 == component_values(b).0 && component_values(a).1
            == component_values(b).1),
        a.eq_spec(&Components::Unknown(5, 1)) <==> a.eq_spec(
            &Components::Redirector(Redirector::GetServerInstance),
        ),
{
}

/// The redirector gives out the instance for packets of component 5 and
/// command 1 only: a packet with any other component or any other command
/// gets an empty response.
pub proof fn lemma_redirect_request_literal(h: Header)
    ensures
        is_redirect_request(h) <==> (h.component == 5 && h.command == 1),
        h.component != 5 ==> !is_redirect_request(h),
        h.command != 1 ==> !is_redirect_request(h),
{
}

/// The details the redirector gives out name the host gosredirector.ea.com
/// and the port 42128, without SSL; details with any other host, port or SSL
/// flag are not those.
pub proof fn lemma_redirect_details_values(d: InstanceDetails)
    ensures
        is_redirect_details(d) <==> (d.net.host@ == "gosredirector.ea.com"@ && d.net.port == 42128
            && !d.secure),
        d.secure ==> !is_redirect_details(d),
        d.net.port != 42128 ==> !is_redirect_details(d),
{
    assert(EXTERNAL_HOST@ == "gosredirector.ea.com"@);
    assert(MAIN_PORT == 42128);
}

/// Every side's opposite is the other side, never itself, and the opposite
/// of the opposite is the side again.
pub proof fn lemma_other_side(s: Side)
    ensures
        other_side(s) != s,
        other_side(other_side(s)) == s,
        s == Side::Client ==> other_side(s) == Side::Server,
        s == Side::Server ==> other_side(s) == Side::Client,
{
}

/// The encoded instance details are, in order: the `ADDR` union with key 0,
/// the `VALU` group holding the host under `HOST`, a zero `IP` and the port
/// under `PORT`, the group's closing zero byte, the SSL flag under `SECU`,
/// and a false `XDNS` flag.
pub proof fn lemma_instance_details_layout(d: InstanceDetails)
    ensures
        instance_details_bytes(d) == tdf_tag_union_start("ADDR".spec_bytes(), 0)
            + tdf_tag_group("VALU".spec_bytes()) + tdf_tag_str("HOST".spec_bytes(), d.net.host@)
            + tdf_tag_u32("IP".spec_bytes(), 0) + tdf_tag_u16("PORT".spec_bytes(), d.net.port)
            + seq![0u8] + tdf_tag_bool("SECU".spec_bytes(), d.secure)
            + tdf_tag_bool("XDNS".spec_bytes(), false),
{
}

} // verus!
