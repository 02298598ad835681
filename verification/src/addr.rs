//! Model of the multiaddresses this layer consumes, and their
//! classification into bindable listen sockets and dialable targets.
//!
//! An address is a list of components. The only shapes this layer supports
//! have exactly two components: a network-layer address (an IP literal for
//! listening, an IP literal or a DNS name for dialing) followed by a TCP
//! port. Everything else is rejected.

use vstd::prelude::*;

verus! {

/// One component of a multiaddress, reduced to what this layer reads.
///
/// Every component kind that this layer does not support is collapsed into
/// `Unsupported`: the logic never distinguishes among them.
#[derive(Debug, Clone)]
pub enum AddrComponent {
    /// An IPv4 address literal.
    Ip4([u8; 4]),
    /// An IPv6 address literal, as eight 16-bit segments.
    Ip6([u16; 8]),
    /// A TCP port.
    Tcp(u16),
    /// A DNS name to be resolved to either address family.
    Dns(Vec<u8>),
    /// A DNS name to be resolved to an IPv4 address.
    Dns4(Vec<u8>),
    /// A DNS name to be resolved to an IPv6 address.
    Dns6(Vec<u8>),
    /// Any component kind this layer does not support.
    Unsupported,
}

/// A socket address a listener can be bound to.
#[allow(inconsistent_fields)]
pub enum SocketAddress {
    V4 { ip: [u8; 4], port: u16 },
    V6 { ip: [u16; 8], port: u16 },
}

/// The transport operation a supported dial address translates to.
#[allow(inconsistent_fields)]
pub enum DialTarget {
    /// Connect over TCP to an IPv4 address.
    TcpIp4 { ip: [u8; 4], port: u16 },
    /// Connect over TCP to an IPv6 address.
    TcpIp6 { ip: [u16; 8], port: u16 },
    /// Resolve a DNS name, then connect over TCP. The three DNS component
    /// kinds all lead here: the dial treats them alike.
    TcpDns { name: Vec<u8>, port: u16 },
}

/// A listen address is well formed when it has exactly two components: an
/// IP literal followed by a TCP port.
pub open spec fn valid_listen_addr(c: Seq<AddrComponent>) -> bool {
    &&& c.len() == 2
    &&& (c[0] is Ip4 || c[0] is Ip6)
    &&& c[1] is Tcp
}

/// The socket a well-formed listen address binds to.
pub open spec fn listen_socket_of(c: Seq<AddrComponent>) -> SocketAddress
    recommends
        valid_listen_addr(c),
{
    match c[0] {
        AddrComponent::Ip4(ip) => SocketAddress::V4 { ip, port: c[1]->Tcp_0 },
        AddrComponent::Ip6(ip) => SocketAddress::V6 { ip, port: c[1]->Tcp_0 },
        _ => arbitrary(),
    }
}

/// A dial address is well formed when it has exactly two components: an IP
/// literal or a DNS name, followed by a TCP port.
pub open spec fn valid_dial_addr(c: Seq<AddrComponent>) -> bool {
    &&& c.len() == 2
    &&& (c[0] is Ip4 || c[0] is Ip6 || c[0] is Dns || c[0] is Dns4 || c[0] is Dns6)
    &&& c[1] is Tcp
}

/// The transport operation a well-formed dial address translates to.
pub open spec fn dial_target_of(c: Seq<AddrComponent>) -> DialTarget
    recommends
        valid_dial_addr(c),
{
    match c[0] {
        AddrComponent::Ip4(ip) => DialTarget::TcpIp4 { ip, port: c[1]->Tcp_0 },
        AddrComponent::Ip6(ip) => DialTarget::TcpIp6 { ip, port: c[1]->Tcp_0 },
        AddrComponent::Dns(name) => DialTarget::TcpDns { name, port: c[1]->Tcp_0 },
        AddrComponent::Dns4(name) => DialTarget::TcpDns { name, port: c[1]->Tcp_0 },
        AddrComponent::Dns6(name) => DialTarget::TcpDns { name, port: c[1]->Tcp_0 },
        _ => arbitrary(),
    }
}

/// Classify a listen address: the socket to bind for a well-formed address,
/// `None` for every other shape.
pub fn listen_socket_addr(addr: &Vec<AddrComponent>) -> (r: Option<SocketAddress>)
    ensures
        r is Some <==> valid_listen_addr(addr@),
        r matches Some(s) ==> s == listen_socket_of(addr@),
{
    if addr.len() != 2 {
        return None;
    }
    let port: u16 = match &addr[1] {
        AddrComponent::Tcp(p) => *p,
        _ => { return None; },
    };
    match &addr[0] {
        AddrComponent::Ip4(ip) => Some(SocketAddress::V4 { ip: *ip, port }),
        AddrComponent::Ip6(ip) => Some(SocketAddress::V6 { ip: *ip, port }),
        _ => None,
    }
}

/// What the dial loop does with the target address of a freshly issued
/// outbound slot.
pub enum SlotAction {
    /// The address is unsupported: report the pending connection as a
    /// failure outcome to the engine and keep polling, without dialing.
    ReportFailure,
    /// The address is supported: spawn a connection task dialing this
    /// target.
    Dial(DialTarget),
}

/// Decide what to do with the target address of an outbound slot: dial a
/// well-formed address, report every other shape as a failure outcome.
pub fn slot_dial_action(addr: Vec<AddrComponent>) -> (r: SlotAction)
    ensures
        r is Dial <==> valid_dial_addr(addr@),
        r matches SlotAction::Dial(t) ==> t == dial_target_of(addr@),
{
    if addr.len() != 2 {
        return SlotAction::ReportFailure;
    }
    let mut addr = addr;
    let second = addr.pop().unwrap();
    let first = addr.pop().unwrap();
    let port: u16 = match second {
        AddrComponent::Tcp(p) => p,
        _ => { return SlotAction::ReportFailure; },
    };
    match first {
        AddrComponent::Ip4(ip) => SlotAction::Dial(DialTarget::TcpIp4 { ip, port }),
        AddrComponent::Ip6(ip) => SlotAction::Dial(DialTarget::TcpIp6 { ip, port }),
        AddrComponent::Dns(name) => SlotAction::Dial(DialTarget::TcpDns { name, port }),
        AddrComponent::Dns4(name) => SlotAction::Dial(DialTarget::TcpDns { name, port }),
        AddrComponent::Dns6(name) => SlotAction::Dial(DialTarget::TcpDns { name, port }),
        _ => SlotAction::ReportFailure,
    }
}

} // verus!
