use tcp_relay::addr::{original_dst_v4, port_from_be, AddrFamily, IpAddress, SocketAddress};
use tcp_relay::guard::{check_loop, GuardDecision};
use tcp_relay::mark::mark_to_propagate;

#[test]
fn port_decodes_from_network_order() {
    assert_eq!(port_from_be(0x01, 0xbb), 443);
    assert_eq!(port_from_be(0x04, 0x38), 1080);
    assert_eq!(port_from_be(0, 0), 0);
    assert_eq!(port_from_be(0xff, 0xff), 65535);
}

#[test]
fn original_destination_decodes_from_nat_record() {
    let dst = original_dst_v4(203, 0, 113, 5, 0x01, 0xbb);
    assert_eq!(dst.ip, IpAddress::V4(203, 0, 113, 5));
    assert_eq!(dst.port, 443);
}

#[test]
fn address_family_follows_ip_kind() {
    let v4 = SocketAddress::v4(127, 0, 0, 1, 1080);
    assert_eq!(v4.family(), AddrFamily::V4);
    let v6 = SocketAddress { ip: IpAddress::V6(0, 0, 0, 0, 0, 0, 0, 1), port: 443 };
    assert_eq!(v6.family(), AddrFamily::V6);
}

#[test]
fn guard_rejects_destination_equal_to_listener() {
    let listener = SocketAddress::v4(127, 0, 0, 1, 1080);
    assert_eq!(check_loop(listener, listener), GuardDecision::Reject);
}

#[test]
fn guard_allows_distinct_destination() {
    let listener = SocketAddress::v4(127, 0, 0, 1, 1080);
    let other_port = SocketAddress::v4(127, 0, 0, 1, 1081);
    let other_ip = SocketAddress::v4(203, 0, 113, 5, 1080);
    assert_eq!(check_loop(listener, other_port), GuardDecision::Allow);
    assert_eq!(check_loop(listener, other_ip), GuardDecision::Allow);
}

#[test]
fn nonzero_mark_propagates() {
    assert_eq!(mark_to_propagate(Some(7)), Some(7));
}

#[test]
fn zero_or_absent_mark_degrades_to_none() {
    assert_eq!(mark_to_propagate(Some(0)), None);
    assert_eq!(mark_to_propagate(None), None);
}
