//! Ports, transport protocols, address families and what "free" means.
use vstd::prelude::*;

verus! {

/// A 16-bit port number; in a bind request 0 asks the system to choose one.
pub type Port = u16;

/// The largest port number.
pub const MAX_PORT: u16 = 65535;

/// Transport protocol of a socket.
#[derive(Clone, Copy, Debug, PartialEq, Eq, Structural)]
pub enum Protocol {
    /// Connection-oriented (TCP).
    Stream,
    /// Connectionless (UDP).
    Datagram,
}

/// IP address family; probes always use the family's wildcard address.
#[derive(Clone, Copy, Debug, PartialEq, Eq, Structural)]
pub enum Family {
    V6,
    V4,
}

/// One transient bind of the wildcard address of `family` on `port`.
#[derive(Clone, Copy, Debug, PartialEq, Eq, Structural)]
pub struct Probe {
    pub protocol: Protocol,
    pub family: Family,
    pub port: Port,
}

/// The protocols on which a port has to be free.
#[derive(Clone, Copy, Debug, PartialEq, Eq, Structural)]
pub struct Requirement {
    pub stream: bool,
    pub datagram: bool,
}

/// A snapshot of the host: whether binding the wildcard address of a family
/// on exactly that port, for that protocol, succeeds.
pub type Host = spec_fn(Protocol, Family, Port) -> bool;

/// The port can be bound for `protocol` on both address families. Port 0
/// never can: a bind of it asks the system for some other port.
pub open spec fn bindable(host: Host, protocol: Protocol, port: Port) -> bool {
    &&& port != 0
    &&& host(protocol, Family::V6, port)
    &&& host(protocol, Family::V4, port)
}

/// The port is free on every protocol that `req` names.
pub open spec fn free_for(host: Host, req: Requirement, port: Port) -> bool {
    &&& req.stream ==> bindable(host, Protocol::Stream, port)
    &&& req.datagram ==> bindable(host, Protocol::Datagram, port)
}

/// Free on both protocols and both families.
pub open spec fn free(host: Host, port: Port) -> bool {
    bindable(host, Protocol::Stream, port) && bindable(host, Protocol::Datagram, port)
}

impl Requirement {
    pub open spec fn requires_protocol(self, protocol: Protocol) -> bool {
        match protocol {
            Protocol::Stream => self.stream,
            Protocol::Datagram => self.datagram,
        }
    }

    /// Free on both protocols.
    pub fn both() -> (r: Requirement)
        ensures
            r == (Requirement { stream: true, datagram: true }),
    {
        Requirement { stream: true, datagram: true }
    }

    /// Free on one protocol, whatever the other one holds.
    pub fn only(protocol: Protocol) -> (r: Requirement)
        ensures
            r.stream == (protocol == Protocol::Stream),
            r.datagram == (protocol == Protocol::Datagram),
    {
        match protocol {
            Protocol::Stream => Requirement { stream: true, datagram: false },
            Protocol::Datagram => Requirement { stream: false, datagram: true },
        }
    }
}

} // verus!
