use vstd::prelude::*;
use crate::address::{
    Family, IpAddress, MDNS_GROUP_V4, MDNS_GROUP_V6, family_of, is_loopback,
};

verus! {

/// A local interface as the enumeration reports it.
#[derive(Clone, Copy, PartialEq, Eq, Structural, Debug)]
pub struct InterfaceRecord {
    pub addr: IpAddress,
    /// The platform's interface index.
    pub index: u32,
}

/// One multicast-group join: the group, and the interface it is scoped to
/// (by local address for IPv4, by interface index for IPv6).
#[derive(Clone, Copy, PartialEq, Eq, Structural, Debug)]
#[allow(inconsistent_fields)]
pub enum JoinTarget {
    V4 { group: u32, interface: u32 },
    V6 { group: u128, index: u32 },
}

/// What a join attempt came to.
#[derive(Clone, Copy, PartialEq, Eq, Structural, Debug)]
pub enum JoinOutcome {
    Joined,
    /// The join failed because the pairing is already in place.
    AddrInUse,
    /// Any other failure.
    Failed,
}

/// What the session asks for next.
#[derive(Clone, Copy, PartialEq, Eq, Structural, Debug)]
pub enum JoinStep {
    Attempt(JoinTarget),
    Finished,
}

/// An interface that is worth a join: of the socket's family, not loopback.
pub open spec fn eligible(f: Family, r: InterfaceRecord) -> bool {
    family_of(r.addr) == f && !is_loopback(r.addr)
}

/// The join scoped to one interface.
pub open spec fn target_for(r: InterfaceRecord) -> JoinTarget {
    match r.addr {
        IpAddress::V4(x) => JoinTarget::V4 { group: MDNS_GROUP_V4, interface: x },
        IpAddress::V6(_) => JoinTarget::V6 { group: MDNS_GROUP_V6, index: r.index },
    }
}

/// The join on the unspecified interface: 0.0.0.0, or index 0.
pub open spec fn fallback(f: Family) -> JoinTarget {
    match f {
        Family::V4 => JoinTarget::V4 { group: MDNS_GROUP_V4, interface: 0 },
        Family::V6 => JoinTarget::V6 { group: MDNS_GROUP_V6, index: 0 },
    }
}

/// The per-interface joins for an enumeration, in its order.
pub open spec fn planned(f: Family, ifaces: Seq<InterfaceRecord>) -> Seq<JoinTarget>
    decreases ifaces.len(),
{
    if ifaces.len() == 0 {
        seq![]
    } else {
        let rest = planned(f, ifaces.drop_last());
        if eligible(f, ifaces.last()) {
            rest.push(target_for(ifaces.last()))
        } else {
            rest
        }
    }
}

/// Whether an outcome is worth a diagnostic: a failure other than
/// "address in use".
pub open spec fn is_logged_failure(o: JoinOutcome) -> bool {
    o == JoinOutcome::Failed
}

/// Classifies a join outcome: `true` for a failure to be logged, `false`
/// for a success or for "address in use", which is expected and silent.
pub fn logs_failure(o: JoinOutcome) -> (r: bool)
    ensures
        r == is_logged_failure(o),
{
    match o {
        JoinOutcome::Failed => true,
        _ => false,
    }
}

/// The join scoped to one interface.
pub fn interface_target(r: &InterfaceRecord) -> (t: JoinTarget)
    ensures
        t == target_for(*r),
{
    match r.addr {
        IpAddress::V4(x) => JoinTarget::V4 { group: MDNS_GROUP_V4, interface: x },
        IpAddress::V6(_) => JoinTarget::V6 { group: MDNS_GROUP_V6, index: r.index },
    }
}

/// The wildcard join of a family.
pub fn fallback_target(f: Family) -> (t: JoinTarget)
    ensures
        t == fallback(f),
{
    match f {
        Family::V4 => JoinTarget::V4 { group: MDNS_GROUP_V4, interface: 0 },
        Family::V6 => JoinTarget::V6 { group: MDNS_GROUP_V6, index: 0 },
    }
}

/// The joins to attempt, one for each interface of the family that is not
/// loopback, in the enumeration's order.
pub fn plan_joins(f: Family, ifaces: &Vec<InterfaceRecord>) -> (r: Vec<JoinTarget>)
    ensures
        r@ == planned(f, ifaces@),
{
    let mut r: Vec<JoinTarget> = Vec::new();
    let mut i: usize = 0;
    while i < ifaces.len()
        invariant
            i <= ifaces@.len(),
            r@ == planned(f, ifaces@.subrange(0, i as int)),
        decreases ifaces@.len() - i,
    {
        let rec = ifaces[i];
        assert(ifaces@.subrange(0, i + 1).drop_last() == ifaces@.subrange(0, i as int));
        if rec.addr.family() == f && !rec.addr.is_loopback() {
            r.push(interface_target(&rec));
        }
        i = i + 1;
    }
    assert(ifaces@.subrange(0, ifaces@.len() as int) == ifaces@);
    r
}

} // verus!
