use vstd::prelude::*;

verus! {

/// The well-known mDNS port.
pub const MDNS_PORT: u16 = 5353;

/// 224.0.0.251 as a big-endian integer.
pub const MDNS_GROUP_V4: u32 = 0xe000_00fb;

/// ff02::fb as a big-endian integer.
pub const MDNS_GROUP_V6: u128 = 0xff02_0000_0000_0000_0000_0000_0000_00fb;

/// An IP version.
#[derive(Clone, Copy, PartialEq, Eq, Structural, Debug)]
pub enum Family {
    V4,
    V6,
}

/// An IP address, held as its big-endian integer value.
#[derive(Clone, Copy, PartialEq, Eq, Structural, Debug)]
pub enum IpAddress {
    V4(u32),
    V6(u128),
}

/// A local address: an IP address and a port.
#[derive(Clone, Copy, PartialEq, Eq, Structural, Debug)]
pub struct SocketAddress {
    pub ip: IpAddress,
    pub port: u16,
}

/// One step of setting up the socket, in the order they are taken.
#[derive(Clone, Copy, PartialEq, Eq, Structural, Debug)]
pub enum BindStep {
    ReuseAddress,
    ReusePort,
    Bind(SocketAddress),
}

/// The setup of a socket of family `f`: address reuse, port reuse where the
/// platform has it, then the bind to the wildcard address on the mDNS port.
pub open spec fn bind_steps(f: Family, has_reuse_port: bool) -> Seq<BindStep> {
    let bind = BindStep::Bind(SocketAddress { ip: wildcard(f), port: MDNS_PORT });
    if has_reuse_port {
        seq![BindStep::ReuseAddress, BindStep::ReusePort, bind]
    } else {
        seq![BindStep::ReuseAddress, bind]
    }
}

pub open spec fn family_of(a: IpAddress) -> Family {
    match a {
        IpAddress::V4(_) => Family::V4,
        IpAddress::V6(_) => Family::V6,
    }
}

/// 127.0.0.0/8 for IPv4, ::1 for IPv6.
pub open spec fn is_loopback(a: IpAddress) -> bool {
    match a {
        IpAddress::V4(x) => x / 0x0100_0000 == 127,
        IpAddress::V6(x) => x == 1,
    }
}

/// The unspecified address of a family: 0.0.0.0 or ::.
pub open spec fn wildcard(f: Family) -> IpAddress {
    match f {
        Family::V4 => IpAddress::V4(0),
        Family::V6 => IpAddress::V6(0),
    }
}

/// The mDNS multicast group of a family: 224.0.0.251 or ff02::fb.
pub open spec fn group(f: Family) -> IpAddress {
    match f {
        Family::V4 => IpAddress::V4(MDNS_GROUP_V4),
        Family::V6 => IpAddress::V6(MDNS_GROUP_V6),
    }
}

impl IpAddress {
    /// The family of the address.
    pub fn family(&self) -> (r: Family)
        ensures
            r == family_of(*self),
    {
        match self {
            IpAddress::V4(_) => Family::V4,
            IpAddress::V6(_) => Family::V6,
        }
    }

    /// Whether the address is a loopback address.
    pub fn is_loopback(&self) -> (r: bool)
        ensures
            r == is_loopback(*self),
    {
        match self {
            IpAddress::V4(x) => *x / 0x0100_0000 == 127,
            IpAddress::V6(x) => *x == 1,
        }
    }
}

impl Family {
    /// The address a socket of this family binds to.
    pub fn any_addr(&self) -> (r: IpAddress)
        ensures
            r == wildcard(*self),
    {
        match self {
            Family::V4 => IpAddress::V4(0),
            Family::V6 => IpAddress::V6(0),
        }
    }

    /// The mDNS multicast group of this family.
    pub fn mdns_group(&self) -> (r: IpAddress)
        ensures
            r == group(*self),
    {
        match self {
            Family::V4 => IpAddress::V4(MDNS_GROUP_V4),
            Family::V6 => IpAddress::V6(MDNS_GROUP_V6),
        }
    }

    /// The wildcard address of this family on the mDNS port.
    pub fn bind_address(&self) -> (r: SocketAddress)
        ensures
            r.ip == wildcard(*self),
            r.port == MDNS_PORT,
            family_of(r.ip) == *self,
    {
        SocketAddress { ip: self.any_addr(), port: MDNS_PORT }
    }

    /// The steps that set up a socket of this family; `has_reuse_port`
    /// tells whether the platform offers port reuse (it does not on Windows).
    pub fn bind_plan(&self, has_reuse_port: bool) -> (r: Vec<BindStep>)
        ensures
            r@ == bind_steps(*self, has_reuse_port),
    {
        let mut r: Vec<BindStep> = Vec::new();
        r.push(BindStep::ReuseAddress);
        if has_reuse_port {
            r.push(BindStep::ReusePort);
        }
        r.push(BindStep::Bind(self.bind_address()));
        proof {
            assert(r@ =~= bind_steps(*self, has_reuse_port));
        }
        r
    }

    /// Whether this is IPv6.
    pub fn v6(&self) -> (r: bool)
        ensures
            r == (*self == Family::V6),
    {
        match self {
            Family::V4 => false,
            Family::V6 => true,
        }
    }
}

} // verus!
