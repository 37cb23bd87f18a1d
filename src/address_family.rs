use vstd::prelude::*;
use crate::address::{Family, IpAddress, SocketAddress, MDNS_PORT, wildcard, group};

verus! {

/// IPv4, as a type-level choice of family; its one value names it too.
pub enum Inet {
    Ipv4,
}

/// IPv6, as a type-level choice of family; its one value names it too.
pub enum Inet6 {
    Ipv6,
}

/// The constants that fix how a socket of one IP version is bound and
/// which multicast group it joins.
pub trait AddressFamily {
    spec fn spec_family() -> Family;

    /// The family that the type stands for.
    fn family() -> (r: Family)
        ensures
            r == Self::spec_family(),
    ;

    /// The wildcard address a socket of the family binds to.
    fn any_addr() -> (r: IpAddress)
        ensures
            r == wildcard(Self::spec_family()),
    ;

    /// The mDNS multicast group of the family.
    fn mdns_group() -> (r: IpAddress)
        ensures
            r == group(Self::spec_family()),
    ;

    /// The wildcard address on the mDNS port.
    fn bind_address() -> (r: SocketAddress)
        ensures
            r.ip == wildcard(Self::spec_family()),
            r.port == MDNS_PORT,
    ;

    /// Whether the family is IPv6.
    fn v6() -> (r: bool)
        ensures
            r == (Self::spec_family() == Family::V6),
    ;
}

impl AddressFamily for Inet {
    open spec fn spec_family() -> Family {
        Family::V4
    }

    fn family() -> (r: Family) {
        Family::V4
    }

    fn any_addr() -> (r: IpAddress) {
        Family::V4.any_addr()
    }

    fn mdns_group() -> (r: IpAddress) {
        Family::V4.mdns_group()
    }

    fn bind_address() -> (r: SocketAddress) {
        Family::V4.bind_address()
    }

    fn v6() -> (r: bool) {
        false
    }
}

impl AddressFamily for Inet6 {
    open spec fn spec_family() -> Family {
        Family::V6
    }

    fn family() -> (r: Family) {
        Family::V6
    }

    fn any_addr() -> (r: IpAddress) {
        Family::V6.any_addr()
    }

    fn mdns_group() -> (r: IpAddress) {
        Family::V6.mdns_group()
    }

    fn bind_address() -> (r: SocketAddress) {
        Family::V6.bind_address()
    }

    fn v6() -> (r: bool) {
        true
    }
}

} // verus!
