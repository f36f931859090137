//! Blaze packet headers: the plain values that identify a packet, and the
//! request / response relation between headers.

use vstd::prelude::*;

verus! {

/// The type of a packet as carried in its header.
#[derive(Debug, Clone, Copy, PartialEq, Eq, Structural)]
pub enum PacketKind {
    /// ID counted request packets
    Request,
    /// Packets responding to requests
    Response,
    /// Unique packets coming from the server
    Notify,
    /// Error packets
    Error,
    /// A packet type value that is none of the above
    Unknown(u16),
}

/// The header that precedes the contents of every packet.
#[derive(Debug, Clone, Copy, PartialEq, Eq, Structural)]
pub struct Header {
    /// The component of this packet
    pub component: u16,
    /// The command of this packet
    pub command: u16,
    /// A possible error this packet contains (zero is none)
    pub error: u16,
    /// The type of this packet
    pub ty: PacketKind,
    /// The unique ID of this packet (zero for notify packets)
    pub id: u16,
}

/// The header of a request with the given id, component and command.
pub open spec fn request_header(id: u16, component: u16, command: u16) -> Header {
    Header { component, command, error: 0, ty: PacketKind::Request, id }
}

/// The header `h` with its type replaced by `ty`.
pub open spec fn header_with_type(h: Header, ty: PacketKind) -> Header {
    Header { ty, ..h }
}

/// The header of a response to a packet with header `h`.
pub open spec fn response_header(h: Header) -> Header {
    header_with_type(h, PacketKind::Response)
}

/// Two headers address the same component and command.
pub open spec fn same_path(a: Header, b: Header) -> bool {
    a.component == b.component && a.command == b.command
}

impl Header {
    /// Creates a request header for the provided id, component and command.
    pub fn request(id: u16, component: u16, command: u16) -> (h: Header)
        ensures
            h == request_header(id, component, command),
    {
        Header { component, command, error: 0, ty: PacketKind::Request, id }
    }

    /// Copies the header contents changing its packet type.
    pub fn with_type(&self, ty: PacketKind) -> (h: Header)
        ensures
            h == header_with_type(*self, ty),
    {
        Header { component: self.component, command: self.command, error: self.error, ty, id: self.id }
    }

    /// Creates the header of a response to this header: the same component,
    /// command, error and id, with the type changed to `Response`.
    pub fn response(&self) -> (h: Header)
        ensures
            h == response_header(*self),
    {
        self.with_type(PacketKind::Response)
    }

    /// Checks whether the component and command of this header match those
    /// of `other`.
    pub fn path_matches(&self, other: &Header) -> (b: bool)
        ensures
            b == same_path(*self, *other),
    {
        self.component == other.component && self.command == other.command
    }
}

} // verus!
