use mdns::address::{BindStep, Family, IpAddress, SocketAddress, MDNS_PORT};
use mdns::address_family::{AddressFamily, Inet, Inet6};
use mdns::join::{logs_failure, plan_joins, InterfaceRecord, JoinOutcome, JoinStep, JoinTarget};
use mdns::session::JoinSession;

const GROUP_V4: u32 = 0xe000_00fb;
const GROUP_V6: u128 = 0xff02_0000_0000_0000_0000_0000_0000_00fb;

fn v4(a: u8, b: u8, c: u8, d: u8) -> InterfaceRecord {
    InterfaceRecord { addr: IpAddress::V4(u32::from_be_bytes([a, b, c, d])), index: 0 }
}

fn v6(addr: u128, index: u32) -> InterfaceRecord {
    InterfaceRecord { addr: IpAddress::V6(addr), index }
}

/// Drives a session to its end; the n-th attempt comes to `outcome(n, target)`.
/// Returns the attempted joins and how many outcomes asked for a diagnostic.
fn drive(
    family: Family,
    enumeration: Option<Vec<InterfaceRecord>>,
    outcome: impl Fn(usize, &JoinTarget) -> JoinOutcome,
) -> (Vec<JoinTarget>, usize) {
    let mut session = JoinSession::start(family, enumeration);
    let mut tried = Vec::new();
    let mut logged = 0;
    while let JoinStep::Attempt(t) = session.next_step() {
        let o = outcome(tried.len(), &t);
        tried.push(t);
        if session.report(o) {
            logged += 1;
        }
        assert!(tried.len() < 100);
    }
    (tried, logged)
}

#[test]
fn family_constants() {
    assert_eq!(Inet::any_addr(), IpAddress::V4(0));
    assert_eq!(Inet6::any_addr(), IpAddress::V6(0));
    assert_eq!(Inet::mdns_group(), IpAddress::V4(u32::from_be_bytes([224, 0, 0, 251])));
    assert_eq!(Inet6::mdns_group(), IpAddress::V6(GROUP_V6));
    assert!(!Inet::v6());
    assert!(Inet6::v6());
    assert_eq!(Inet::family(), Family::V4);
    assert_eq!(Inet6::family(), Family::V6);
    assert_eq!(MDNS_PORT, 5353);
}

#[test]
fn bind_address_is_wildcard_on_mdns_port() {
    assert_eq!(Inet::bind_address(), SocketAddress { ip: IpAddress::V4(0), port: 5353 });
    assert_eq!(Inet6::bind_address(), SocketAddress { ip: IpAddress::V6(0), port: 5353 });
    assert_eq!(Family::V6.bind_address().ip.family(), Family::V6);
}

#[test]
fn bind_plan_reuses_port_where_available() {
    let addr = SocketAddress { ip: IpAddress::V4(0), port: 5353 };
    assert_eq!(
        Family::V4.bind_plan(true),
        vec![BindStep::ReuseAddress, BindStep::ReusePort, BindStep::Bind(addr)]
    );
    let addr6 = SocketAddress { ip: IpAddress::V6(0), port: 5353 };
    assert_eq!(Family::V6.bind_plan(false), vec![BindStep::ReuseAddress, BindStep::Bind(addr6)]);
}

#[test]
fn loopback_detection() {
    assert!(IpAddress::V4(u32::from_be_bytes([127, 0, 0, 1])).is_loopback());
    assert!(IpAddress::V4(u32::from_be_bytes([127, 255, 3, 4])).is_loopback());
    assert!(!IpAddress::V4(u32::from_be_bytes([128, 0, 0, 1])).is_loopback());
    assert!(IpAddress::V6(1).is_loopback());
    assert!(!IpAddress::V6(0).is_loopback());
}

#[test]
fn plan_skips_loopback_and_other_family() {
    let ifaces = vec![v4(127, 0, 0, 1), v6(0xfe80 << 112, 2), v4(192, 168, 1, 5), v4(10, 0, 0, 2)];
    let plan = plan_joins(Family::V4, &ifaces);
    assert_eq!(
        plan,
        vec![
            JoinTarget::V4 { group: GROUP_V4, interface: u32::from_be_bytes([192, 168, 1, 5]) },
            JoinTarget::V4 { group: GROUP_V4, interface: u32::from_be_bytes([10, 0, 0, 2]) },
        ]
    );
    let plan6 = plan_joins(Family::V6, &ifaces);
    assert_eq!(plan6, vec![JoinTarget::V6 { group: GROUP_V6, index: 2 }]);
}

#[test]
fn ipv4_loopback_and_one_interface() {
    let ifaces = vec![v4(127, 0, 0, 1), v4(192, 168, 1, 5)];
    let (tried, logged) = drive(Family::V4, Some(ifaces), |_, _| JoinOutcome::Joined);
    assert_eq!(
        tried,
        vec![JoinTarget::V4 { group: GROUP_V4, interface: u32::from_be_bytes([192, 168, 1, 5]) }]
    );
    assert_eq!(logged, 0);
}

#[test]
fn ipv4_enumeration_failure_joins_nothing() {
    let (tried, logged) = drive(Family::V4, None, |_, _| JoinOutcome::Failed);
    assert!(tried.is_empty());
    assert_eq!(logged, 0);
    let session = JoinSession::start(Family::V4, None);
    assert_eq!(session.next_step(), JoinStep::Finished);
}

#[test]
fn ipv6_interface_index_is_used() {
    let ifaces = vec![v6(0xfe80_0000_0000_0000_0000_0000_0000_0001, 3)];
    let (tried, _) = drive(Family::V6, Some(ifaces), |_, _| JoinOutcome::Joined);
    assert_eq!(tried, vec![JoinTarget::V6 { group: GROUP_V6, index: 3 }]);
}

#[test]
fn ipv6_failed_interface_join_falls_back_to_index_zero() {
    let ifaces = vec![v6(0xfe80_0000_0000_0000_0000_0000_0000_0001, 3)];
    let (tried, logged) = drive(Family::V6, Some(ifaces), |_, _| JoinOutcome::Failed);
    assert_eq!(
        tried,
        vec![
            JoinTarget::V6 { group: GROUP_V6, index: 3 },
            JoinTarget::V6 { group: GROUP_V6, index: 0 },
        ]
    );
    assert_eq!(logged, 2);
}

#[test]
fn no_eligible_interface_one_fallback() {
    let ifaces = vec![v4(127, 0, 0, 1), v6(1, 1)];
    let (tried, _) = drive(Family::V4, Some(ifaces.clone()), |_, _| JoinOutcome::Failed);
    assert_eq!(tried, vec![JoinTarget::V4 { group: GROUP_V4, interface: 0 }]);
    let (tried6, _) = drive(Family::V6, Some(Vec::new()), |_, _| JoinOutcome::Joined);
    assert_eq!(tried6, vec![JoinTarget::V6 { group: GROUP_V6, index: 0 }]);
}

#[test]
fn one_success_skips_fallback() {
    let ifaces = vec![v4(10, 0, 0, 1), v4(10, 0, 0, 2), v4(10, 0, 0, 3)];
    let (tried, logged) = drive(Family::V4, Some(ifaces), |n, _| {
        if n == 1 { JoinOutcome::Joined } else { JoinOutcome::Failed }
    });
    assert_eq!(tried.len(), 3);
    assert!(!tried.contains(&JoinTarget::V4 { group: GROUP_V4, interface: 0 }));
    assert_eq!(logged, 2);
}

#[test]
fn addr_in_use_is_silent_and_does_not_stop() {
    let ifaces = vec![v4(10, 0, 0, 1), v4(10, 0, 0, 2)];
    let (tried, logged) = drive(Family::V4, Some(ifaces), |_, _| JoinOutcome::AddrInUse);
    assert_eq!(
        tried,
        vec![
            JoinTarget::V4 { group: GROUP_V4, interface: u32::from_be_bytes([10, 0, 0, 1]) },
            JoinTarget::V4 { group: GROUP_V4, interface: u32::from_be_bytes([10, 0, 0, 2]) },
            JoinTarget::V4 { group: GROUP_V4, interface: 0 },
        ]
    );
    assert_eq!(logged, 0);
}

#[test]
fn outcome_classification() {
    assert!(logs_failure(JoinOutcome::Failed));
    assert!(!logs_failure(JoinOutcome::AddrInUse));
    assert!(!logs_failure(JoinOutcome::Joined));
}

#[test]
fn session_tracks_success() {
    let mut s = JoinSession::start(Family::V4, Some(vec![v4(10, 0, 0, 1)]));
    assert!(!s.joined());
    assert!(!s.report(JoinOutcome::Joined));
    assert!(s.joined());
    assert_eq!(s.next_step(), JoinStep::Finished);
}
