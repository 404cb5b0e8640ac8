use scheme_redirect::address::{classify, AddressFamily, PeerAddr, Scheme};
use scheme_redirect::data::Protocols;
use scheme_redirect::middleware::should_redirect;

#[test]
fn classify_absent_peer_is_unknown() {
    assert_eq!(classify(&None), AddressFamily::Unknown);
}

#[test]
fn classify_ipv4_peer_is_ipv4() {
    let peer = PeerAddr::V4 { octets: [192, 168, 0, 1], port: 55321 };
    assert_eq!(classify(&Some(peer)), AddressFamily::IPv4);
}

#[test]
fn classify_ipv4_mapped_ipv6_is_ipv4() {
    // ::ffff:192.168.0.1
    let peer = PeerAddr::V6 { segments: [0, 0, 0, 0, 0, 0xffff, 0xc0a8, 0x0001], port: 443 };
    assert_eq!(classify(&Some(peer)), AddressFamily::IPv4);
}

#[test]
fn classify_true_ipv6_is_ipv6() {
    // 2001:db8::1
    let peer = PeerAddr::V6 { segments: [0x2001, 0x0db8, 0, 0, 0, 0, 0, 1], port: 443 };
    assert_eq!(classify(&Some(peer)), AddressFamily::IPv6);
}

#[test]
fn classify_loopback_ipv6_is_ipv6() {
    // ::1 is not IPv4-mapped (sixth segment is zero, not ffff)
    let peer = PeerAddr::V6 { segments: [0, 0, 0, 0, 0, 0, 0, 1], port: 8080 };
    assert_eq!(classify(&Some(peer)), AddressFamily::IPv6);
}

#[test]
fn disabled_policy_never_redirects() {
    for family in [AddressFamily::IPv4, AddressFamily::IPv6, AddressFamily::Unknown] {
        for scheme in [Scheme::Http, Scheme::Https] {
            assert!(!should_redirect(Protocols::Disabled, family, scheme));
        }
    }
}

#[test]
fn https_scheme_never_redirects() {
    for policy in [Protocols::IPv4, Protocols::IPv6, Protocols::Both, Protocols::Disabled] {
        for family in [AddressFamily::IPv4, AddressFamily::IPv6, AddressFamily::Unknown] {
            assert!(!should_redirect(policy, family, Scheme::Https));
        }
    }
}

#[test]
fn decision_table_on_http() {
    assert!(should_redirect(Protocols::IPv4, AddressFamily::IPv4, Scheme::Http));
    assert!(!should_redirect(Protocols::IPv4, AddressFamily::IPv6, Scheme::Http));
    assert!(!should_redirect(Protocols::IPv4, AddressFamily::Unknown, Scheme::Http));
    assert!(!should_redirect(Protocols::IPv6, AddressFamily::IPv4, Scheme::Http));
    assert!(should_redirect(Protocols::IPv6, AddressFamily::IPv6, Scheme::Http));
    assert!(!should_redirect(Protocols::IPv6, AddressFamily::Unknown, Scheme::Http));
    assert!(should_redirect(Protocols::Both, AddressFamily::IPv4, Scheme::Http));
    assert!(should_redirect(Protocols::Both, AddressFamily::IPv6, Scheme::Http));
    assert!(!should_redirect(Protocols::Both, AddressFamily::Unknown, Scheme::Http));
}

#[test]
fn both_policy_redirects_exactly_known_families() {
    for family in [AddressFamily::IPv4, AddressFamily::IPv6, AddressFamily::Unknown] {
        assert_eq!(
            should_redirect(Protocols::Both, family, Scheme::Http),
            family != AddressFamily::Unknown
        );
    }
}

#[test]
fn protocols_default_is_disabled() {
    assert_eq!(Protocols::default(), Protocols::Disabled);
}
