//! Network addresses as sequences of protocol components, and the checks the
//! transports make on them.
use vstd::prelude::*;

verus! {

/// An IP address.
#[derive(Clone, Copy, Debug, PartialEq, Eq, Structural)]
pub enum IpAddr {
    /// An IPv4 address as its 32-bit big-endian value.
    V4(u32),
    V6(u128),
}

/// One component of a multiaddress.
#[derive(Clone, Copy, Debug, PartialEq, Eq, Structural)]
pub enum Protocol {
    /// An IPv4 address as its 32-bit big-endian value.
    Ip4(u32),
    Ip6(u128),
    Tcp(u16),
    Udp(u16),
    /// Any other component; the transports here do not read it.
    Other,
}

/// A self-describing network address: its components in order.
pub struct Multiaddr {
    pub parts: Vec<Protocol>,
}

/// An IP address and port.
#[derive(Clone, Copy, Debug, PartialEq, Eq, Structural)]
pub struct SocketAddr {
    pub ip: IpAddr,
    pub port: u16,
}

/// Which transport protocol an address is checked for.
#[derive(Clone, Copy, Debug, PartialEq, Eq, Structural)]
pub enum PortKind {
    Tcp,
    Udp,
}

/// The IP address a component names, if it names one.
pub open spec fn ip_of(p: Protocol) -> Option<IpAddr> {
    match p {
        Protocol::Ip4(a) => Some(IpAddr::V4(a)),
        Protocol::Ip6(a) => Some(IpAddr::V6(a)),
        _ => None,
    }
}

/// The port a component names for `kind`, if it names one.
pub open spec fn port_of(p: Protocol, kind: PortKind) -> Option<u16> {
    match (p, kind) {
        (Protocol::Tcp(n), PortKind::Tcp) => Some(n),
        (Protocol::Udp(n), PortKind::Udp) => Some(n),
        _ => None,
    }
}

/// The port of the first component of `s` that names one for `kind`.
pub open spec fn first_port(s: Seq<Protocol>, kind: PortKind) -> Option<u16>
    decreases s.len(),
{
    if s.len() == 0 {
        None
    } else if port_of(s[0], kind).is_some() {
        port_of(s[0], kind)
    } else {
        first_port(s.drop_first(), kind)
    }
}

/// The check a transport makes on an address: it must start with an IP
/// address, and some later component must give a port of the transport's
/// kind; the first one counts. Gives the validity, the leading IP address
/// and the port found.
pub open spec fn check_model(s: Seq<Protocol>, kind: PortKind) -> (bool, Option<IpAddr>, Option<u16>) {
    if s.len() == 0 || ip_of(s[0]).is_none() {
        (false, None, None)
    } else {
        let port = first_port(s.drop_first(), kind);
        (port.is_some(), ip_of(s[0]), port)
    }
}

/// The socket address an address ends in: an IP address followed by a TCP
/// port as its last two components.
pub open spec fn tcp_tail(s: Seq<Protocol>) -> Option<SocketAddr> {
    if s.len() >= 2 {
        match (s[s.len() - 2], s[s.len() - 1]) {
            (Protocol::Ip4(a), Protocol::Tcp(port)) => Some(SocketAddr { ip: IpAddr::V4(a), port }),
            (Protocol::Ip6(a), Protocol::Tcp(port)) => Some(SocketAddr { ip: IpAddr::V6(a), port }),
            _ => None,
        }
    } else {
        None
    }
}

fn ip_of_exec(p: Protocol) -> (r: Option<IpAddr>)
    ensures
        r == ip_of(p),
{
    match p {
        Protocol::Ip4(a) => Some(IpAddr::V4(a)),
        Protocol::Ip6(a) => Some(IpAddr::V6(a)),
        _ => None,
    }
}

fn port_of_exec(p: Protocol, kind: PortKind) -> (r: Option<u16>)
    ensures
        r == port_of(p, kind),
{
    match (p, kind) {
        (Protocol::Tcp(n), PortKind::Tcp) => Some(n),
        (Protocol::Udp(n), PortKind::Udp) => Some(n),
        _ => None,
    }
}

impl Multiaddr {
    pub fn new(parts: Vec<Protocol>) -> (r: Multiaddr)
        ensures
            r.parts@ == parts@,
    {
        Multiaddr { parts }
    }

    /// A copy of this address.
    pub fn duplicate(&self) -> (r: Multiaddr)
        ensures
            r.parts@ == self.parts@,
    {
        let mut parts: Vec<Protocol> = Vec::new();
        let mut i: usize = 0;
        while i < self.parts.len()
            invariant
                0 <= i <= self.parts@.len(),
                parts@ == self.parts@.subrange(0, i as int),
            decreases self.parts@.len() - i,
        {
            parts.push(self.parts[i]);
            i = i + 1;
        }
        assert(parts@ =~= self.parts@);
        Multiaddr { parts }
    }

    /// Checks the address for a transport of `kind`; see `check_model`.
    pub fn check(&self, kind: PortKind) -> (r: (bool, Option<IpAddr>, Option<u16>))
        ensures
            r == check_model(self.parts@, kind),
    {
        let ghost s = self.parts@;
        if self.parts.len() == 0 {
            return (false, None, None);
        }
        let ip = ip_of_exec(self.parts[0]);
        if ip.is_none() {
            return (false, None, None);
        }
        let mut i: usize = 1;
        while i < self.parts.len()
            invariant
                1 <= i <= s.len(),
                s == self.parts@,
                ip == ip_of(s[0]),
                ip.is_some(),
                first_port(s.drop_first(), kind) == first_port(s.subrange(i as int, s.len() as int), kind),
            decreases s.len() - i,
        {
            let ghost rest = s.subrange(i as int, s.len() as int);
            assert(rest[0] == s[i as int]);
            assert(rest.drop_first() =~= s.subrange(i + 1, s.len() as int));
            let port = port_of_exec(self.parts[i], kind);
            if port.is_some() {
                assert(first_port(rest, kind) == port_of(rest[0], kind));
                return (true, ip, port);
            }
            i = i + 1;
        }
        assert(s.subrange(i as int, s.len() as int) =~= Seq::<Protocol>::empty());
        (false, ip, None)
    }

    /// The socket address this address ends in, if its last two components
    /// are an IP address and a TCP port.
    pub fn to_tcp_sock_addr(&self) -> (r: Option<SocketAddr>)
        ensures
            r == tcp_tail(self.parts@),
    {
        let n = self.parts.len();
        if n < 2 {
            return None;
        }
        match (self.parts[n - 2], self.parts[n - 1]) {
            (Protocol::Ip4(a), Protocol::Tcp(port)) => Some(SocketAddr { ip: IpAddr::V4(a), port }),
            (Protocol::Ip6(a), Protocol::Tcp(port)) => Some(SocketAddr { ip: IpAddr::V6(a), port }),
            _ => None,
        }
    }
}

/// The socket address that a TCP multiaddress ends in.
pub fn ma_to_tcp_ip_sock_addr(addr: &Multiaddr) -> (r: Option<SocketAddr>)
    ensures
        r == tcp_tail(addr.parts@),
{
    addr.to_tcp_sock_addr()
}

} // verus!
