//! The retriever: the client side that asks the official redirector for the
//! address of the official main server. Holds the session's request ids, the
//! matching of responses to requests, and the decisions of the host lookup.

use vstd::prelude::*;
use blaze_pk::error::DecodeError;
use blaze_pk::packet::Packet;
use crate::components::{component_values, redirect_component, Components};
use crate::models::{InstanceDetails, Port};
use crate::packet::{request_header, same_path, Header, PacketKind};

verus! {

/// Error type for retriever errors
pub enum RetrieverError {
    /// Packet decode error
    Decode(DecodeError),
    /// IO error
    IO(std::io::Error),
    /// Error response packet
    Packet(Packet),
}

/// Result of a retriever operation.
pub type RetrieverResult<T> = Result<T, RetrieverError>;

impl From<DecodeError> for RetrieverError {
    fn from(err: DecodeError) -> (r: RetrieverError) {
        RetrieverError::Decode(err)
    }
}

impl vstd::std_specs::convert::FromSpecImpl<DecodeError> for RetrieverError {
    open spec fn obeys_from_spec() -> bool {
        true
    }

    open spec fn from_spec(v: DecodeError) -> RetrieverError {
        RetrieverError::Decode(v)
    }
}

impl From<std::io::Error> for RetrieverError {
    fn from(err: std::io::Error) -> (r: RetrieverError) {
        RetrieverError::IO(err)
    }
}

impl vstd::std_specs::convert::FromSpecImpl<std::io::Error> for RetrieverError {
    open spec fn obeys_from_spec() -> bool {
        true
    }

    open spec fn from_spec(v: std::io::Error) -> RetrieverError {
        RetrieverError::IO(v)
    }
}

/// What waiting for the response to `request` makes of a received packet.
pub enum Verdict {
    /// The packet is the response: the wait is over.
    Accept,
    /// The packet is an error: the wait is over with that error.
    Reject,
    /// The packet is a notification: it goes to the notification handler
    /// and the wait goes on.
    Notify,
    /// The packet is for something else: the wait goes on.
    Skip,
}

/// What waiting for the response to `request` makes of a received packet
/// with header `h`.
pub open spec fn response_verdict(request: Header, h: Header) -> Verdict {
    if h.ty == PacketKind::Response && same_path(h, request) {
        Verdict::Accept
    } else if h.ty == PacketKind::Error {
        Verdict::Reject
    } else if h.ty == PacketKind::Notify {
        Verdict::Notify
    } else {
        Verdict::Skip
    }
}

/// The retriever's step after receiving a packet while waiting for a
/// response.
pub enum ResponseStep {
    /// The wait is over with this result.
    Done(RetrieverResult<Packet>),
    /// Hand this notification packet to the notification handler and keep
    /// waiting.
    Notify(Packet),
    /// Keep waiting; the packet is not for this request.
    Skip,
}

/// Session state for a retriever client: the id of the next request.
pub struct RetSession {
    id: u16,
}

impl RetSession {
    /// The id the next request of this session carries.
    pub closed spec fn next_id(&self) -> u16 {
        self.id
    }

    /// Creates a new session; its first request carries id zero.
    pub fn new() -> (s: RetSession)
        ensures
            s.next_id() == 0,
    {
        RetSession { id: 0 }
    }

    /// The id the next request of this session carries.
    pub fn id(&self) -> (id: u16)
        ensures
            id == self.next_id(),
    {
        self.id
    }

    /// The header of the next request of this session, for `component`.
    pub fn request(&self, component: &Components) -> (h: Header)
        ensures
            h == request_header(self.next_id(), component_values(*component).0, component_values(*component).1),
    {
        let (component, command) = component.values();
        Header::request(self.id, component, command)
    }

    /// Records that the request built by `request` was written and flushed:
    /// the next request carries the following id.
    pub fn request_sent(&mut self)
        requires
            old(self).next_id() < u16::MAX,
        ensures
            final(self).next_id() == old(self).next_id() + 1,
    {
        self.id = self.id + 1;
    }

    /// Decides what a packet received while waiting for the response to
    /// `request` means. `header` is the header of `packet`. A response whose
    /// component and command match the request is the response; an error
    /// packet ends the wait with that packet as the error; a notification
    /// packet is handed to the notification handler; anything else (requests,
    /// other responses) is skipped.
    pub fn expect_response(request: &Header, header: &Header, packet: Packet) -> (r: ResponseStep)
        ensures
            response_verdict(*request, *header) is Accept ==> r == ResponseStep::Done(
                Ok::<Packet, RetrieverError>(packet),
            ),
            response_verdict(*request, *header) is Reject ==> r == ResponseStep::Done(
                Err::<Packet, RetrieverError>(RetrieverError::Packet(packet)),
            ),
            response_verdict(*request, *header) is Notify ==> r == ResponseStep::Notify(packet),
            response_verdict(*request, *header) is Skip ==> r is Skip,
    {
        match header.ty {
            PacketKind::Response => {
                if header.path_matches(request) {
                    ResponseStep::Done(Ok(packet))
                } else {
                    ResponseStep::Skip
                }
            },
            PacketKind::Error => ResponseStep::Done(Err(RetrieverError::Packet(packet))),
            PacketKind::Notify => ResponseStep::Notify(packet),
            _ => ResponseStep::Skip,
        }
    }

    /// The header of the request for the official server instance.
    pub fn get_main_instance(&self) -> (h: Header)
        ensures
            h == request_header(
                self.next_id(),
                crate::components::REDIRECTOR_COMPONENT,
                crate::components::GET_SERVER_INSTANCE_COMMAND,
            ),
    {
        self.request(&redirect_component())
    }
}

/// Structure for the retriever system which contains the host address of the
/// official game server in order to make further connections.
pub struct Retriever {
    /// The host address of the official server
    host: String,
    /// The port of the official server
    port: Port,
}

impl View for Retriever {
    type V = (Seq<char>, Port);

    closed spec fn view(&self) -> (Seq<char>, Port) {
        (self.host@, self.port)
    }
}

impl Retriever {
    /// The host name of the official redirector server.
    pub const REDIRECTOR_HOST: &'static str = "gosredirector.ea.com";

    /// The port of the official redirector server.
    pub const REDIRECT_PORT: Port = 42127;

    /// The address of the main server given in the redirector's instance
    /// details.
    pub fn get_main_host(instance: InstanceDetails) -> (r: (String, Port))
        ensures
            r.0@ == instance.net.host@,
            r.1 == instance.net.port,
    {
        let net = instance.net;
        (net.host, net.port)
    }

    /// Creates the retriever for the main server named in the redirector's
    /// instance details.
    pub fn new(instance: InstanceDetails) -> (r: Retriever)
        ensures
            r@ == (instance.net.host@, instance.net.port),
    {
        let (host, port) = Self::get_main_host(instance);
        Retriever { host, port }
    }

    /// The host address of the official main server.
    pub fn host(&self) -> (h: &String)
        ensures
            h@ == self@.0,
    {
        &self.host
    }

    /// The port of the official main server.
    pub fn port(&self) -> (p: Port)
        ensures
            p == self@.1,
    {
        self.port
    }
}

/// An address that a system host lookup resolved to.
#[derive(Debug, Clone, Copy)]
pub enum HostAddr {
    /// An IPv4 address, by its four octets
    V4([u8; 4]),
    /// An IPv6 address, by its eight 16-bit segments
    V6([u16; 8]),
}

/// A loopback address: 127.0.0.0/8 for IPv4, ::1 for IPv6.
pub open spec fn is_loopback_addr(a: HostAddr) -> bool {
    match a {
        HostAddr::V4(o) => o@[0] == 127,
        HostAddr::V6(s) => s@ =~= seq![0u16, 0u16, 0u16, 0u16, 0u16, 0u16, 0u16, 1u16],
    }
}

impl HostAddr {
    /// Whether this is a loopback address.
    pub fn is_loopback(&self) -> (b: bool)
        ensures
            b == is_loopback_addr(*self),
    {
        match self {
            HostAddr::V4(o) => o[0] == 127,
            HostAddr::V6(s) => {
                let r = s[0] == 0 && s[1] == 0 && s[2] == 0 && s[3] == 0 && s[4] == 0 && s[5] == 0
                    && s[6] == 0 && s[7] == 1;
                assert(r ==> s@ =~= seq![0u16, 0u16, 0u16, 0u16, 0u16, 0u16, 0u16, 1u16]);
                r
            },
        }
    }
}

/// The next step of a host lookup after the system resolver answered.
pub enum LookupStep {
    /// The system resolver's address is the answer.
    UseSystem,
    /// Ask the HTTP DNS service at this URL instead.
    Query(String),
}

/// The text of the HTTP DNS query for the A records of `host`.
pub open spec fn dns_query_text(host: Seq<char>) -> Seq<char> {
    "https://dns.google/resolve?name="@ + host + "&type=A"@
}

/// The URL of the HTTP DNS query for the A records of `host`.
pub fn dns_query_url(host: &str) -> (url: String)
    ensures
        url@ == dns_query_text(host@),
{
    let mut url = String::from_str("https://dns.google/resolve?name=");
    url.append(host);
    url.append("&type=A");
    url
}

/// Decides the host lookup after the system resolver gave `system` (its
/// first address, if any) for `host`. An address that is not a loopback
/// address is used; a loopback address most likely comes from a hosts-file
/// redirect, so it is ignored, as is a failed lookup, and the HTTP DNS
/// service is asked instead.
pub fn lookup_host(host: &str, system: Option<HostAddr>) -> (step: LookupStep)
    ensures
        system matches Some(a) && !is_loopback_addr(a) ==> step is UseSystem,
        !(system matches Some(a) && !is_loopback_addr(a)) ==> (step matches LookupStep::Query(url)
            && url@ == dns_query_text(host@)),
{
    if let Some(addr) = system {
        if !addr.is_loopback() {
            return LookupStep::UseSystem;
        }
    }
    LookupStep::Query(dns_query_url(host))
}

/// The answer portion of an HTTP DNS lookup response; only the data value is
/// used.
pub struct Answer {
    /// The address this answer gives
    pub data: String,
}

/// The lookup response of the HTTP DNS service.
pub struct LookupResponse {
    /// The answers of the response, in the order given
    pub answer: Vec<Answer>,
}

impl LookupResponse {
    /// The address of the last answer, if there is any.
    pub fn last_answer(self) -> (r: Option<String>)
        ensures
            self.answer@.len() == 0 ==> r is None,
            self.answer@.len() > 0 ==> (r matches Some(d) && d@ == self.answer@.last().data@),
    {
        let mut answers = self.answer;
        match answers.pop() {
            Some(answer) => Some(answer.data),
            None => None,
        }
    }
}

} // verus!
