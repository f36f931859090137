//! The packet components this proxy names, identified by their component and
//! command values. Components compare equal when their values are equal.

use vstd::prelude::*;
use crate::packet::{Header, PacketKind};

verus! {

/// The component value of the redirector.
pub const REDIRECTOR_COMPONENT: u16 = 0x5;

/// The command value of the redirector's server instance request.
pub const GET_SERVER_INSTANCE_COMMAND: u16 = 0x1;

/// Commands of the redirector component.
#[derive(Debug, Clone, Copy)]
pub enum Redirector {
    /// Request for the address of the main server instance
    GetServerInstance,
    /// Any other redirector command
    Unknown(u16),
}

/// Packet components, by component and command.
#[derive(Debug, Clone, Copy)]
pub enum Components {
    /// A command of the redirector component
    Redirector(Redirector),
    /// Any other component and command
    Unknown(u16, u16),
}

/// The command value of a redirector command.
pub open spec fn redirector_command_value(r: Redirector) -> u16 {
    match r {
        Redirector::GetServerInstance => GET_SERVER_INSTANCE_COMMAND,
        Redirector::Unknown(v) => v,
    }
}

/// The redirector command with the given value; the redirector has no
/// notify commands.
pub open spec fn redirector_from_value_spec(value: u16, notify: bool) -> Redirector {
    if !notify && value == GET_SERVER_INSTANCE_COMMAND {
        Redirector::GetServerInstance
    } else {
        Redirector::Unknown(value)
    }
}

/// The (component, command) values of a component.
pub open spec fn component_values(c: Components) -> (u16, u16) {
    match c {
        Components::Redirector(r) => (REDIRECTOR_COMPONENT, redirector_command_value(r)),
        Components::Unknown(a, b) => (a, b),
    }
}

/// The component named by the given values.
pub open spec fn components_from_values(component: u16, command: u16, notify: bool) -> Components {
    if component == REDIRECTOR_COMPONENT {
        Components::Redirector(redirector_from_value_spec(command, notify))
    } else {
        Components::Unknown(component, command)
    }
}

/// The component named by a packet header.
pub open spec fn components_from_header(h: Header) -> Components {
    components_from_values(h.component, h.command, h.ty == PacketKind::Notify)
}

impl Redirector {
    /// The command value of this redirector command.
    pub fn command(&self) -> (v: u16)
        ensures
            v == redirector_command_value(*self),
    {
        match self {
            Redirector::GetServerInstance => GET_SERVER_INSTANCE_COMMAND,
            Redirector::Unknown(v) => *v,
        }
    }

    /// Finds the redirector command with the given value, taking into
    /// account whether the packet is a notify packet.
    pub fn from_value(value: u16, notify: bool) -> (r: Redirector)
        ensures
            r == redirector_from_value_spec(value, notify),
    {
        if notify {
            Redirector::Unknown(value)
        } else if value == GET_SERVER_INSTANCE_COMMAND {
            Redirector::GetServerInstance
        } else {
            Redirector::Unknown(value)
        }
    }
}

impl Components {
    /// The component and command values of this component.
    pub fn values(&self) -> (v: (u16, u16))
        ensures
            v == component_values(*self),
    {
        match self {
            Components::Redirector(r) => (REDIRECTOR_COMPONENT, r.command()),
            Components::Unknown(a, b) => (*a, *b),
        }
    }

    /// The component named by the given component and command values.
    pub fn from_values(component: u16, command: u16, notify: bool) -> (c: Components)
        ensures
            c == components_from_values(component, command, notify),
    {
        if component == REDIRECTOR_COMPONENT {
            Components::Redirector(Redirector::from_value(command, notify))
        } else {
            Components::Unknown(component, command)
        }
    }

    /// The component named by the component and command of a header.
    pub fn from_header(header: &Header) -> (c: Components)
        ensures
            c == components_from_header(*header),
    {
        let notify = match header.ty {
            PacketKind::Notify => true,
            _ => false,
        };
        Components::from_values(header.component, header.command, notify)
    }
}

impl PartialEq for Components {
    fn eq(&self, other: &Self) -> (r: bool) {
        let a = self.values();
        let b = other.values();
        a.0 == b.0 && a.1 == b.1
    }
}

impl vstd::std_specs::cmp::PartialEqSpecImpl for Components {
    open spec fn obeys_eq_spec() -> bool {
        true
    }

    open spec fn eq_spec(&self, other: &Components) -> bool {
        component_values(*self) == component_values(*other)
    }
}

impl Eq for Components {}

/// The component of the redirector's server instance request.
pub fn redirect_component() -> (c: Components)
    ensures
        c == Components::Redirector(Redirector::GetServerInstance),
{
    Components::Redirector(Redirector::GetServerInstance)
}

/// The values of the component named by some values are those values: no
/// component and command is lost or changed by identifying it.
pub proof fn lemma_values_round_trip(component: u16, command: u16, notify: bool)
    ensures
        component_values(components_from_values(component, command, notify)) == (component, command),
{
}

/// The component read from a header carries that header's component and
/// command values.
pub proof fn lemma_header_values(h: Header)
    ensures
        component_values(components_from_header(h)) == (h.component, h.command),
{
}

} // verus!
