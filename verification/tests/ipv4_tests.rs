use dns_setter::domain::DnsProvider;
use dns_setter::ipv4::{is_acceptable_ip_input, is_valid_ip};

#[test]
fn valid_addresses() {
    assert!(is_valid_ip("8.8.8.8"));
    assert!(is_valid_ip("0.0.0.0"));
    assert!(is_valid_ip("255.255.255.255"));
    assert!(is_valid_ip("001.2.3.4"));
    assert!(is_valid_ip("+1.2.3.4"));
}

#[test]
fn invalid_addresses() {
    assert!(!is_valid_ip(""));
    assert!(!is_valid_ip("1.2.3"));
    assert!(!is_valid_ip("1.2.3.4.5"));
    assert!(!is_valid_ip("256.1.1.1"));
    assert!(!is_valid_ip("1..2.3"));
    assert!(!is_valid_ip("1.2.3."));
    assert!(!is_valid_ip("-1.2.3.4"));
    assert!(!is_valid_ip(" 1.2.3.4"));
    assert!(!is_valid_ip("a.b.c.d"));
    assert!(!is_valid_ip("+.1.1.1"));
}

#[test]
fn every_dotted_quad_is_valid() {
    for (a, b, c, d) in [(0u8, 0u8, 0u8, 0u8), (255, 255, 255, 255), (10, 202, 10, 11), (1, 22, 133, 4)] {
        assert!(is_valid_ip(&format!("{}.{}.{}.{}", a, b, c, d)));
    }
}

#[test]
fn provider_addresses_are_valid() {
    for p in [
        DnsProvider::electro(),
        DnsProvider::radar(),
        DnsProvider::shekan(),
        DnsProvider::bogzar(),
        DnsProvider::quad9(),
    ] {
        let (a, b) = p.get_servers();
        assert!(is_valid_ip(&a));
        assert!(is_valid_ip(&b));
    }
}

#[test]
fn input_acceptance() {
    assert!(is_acceptable_ip_input(""));
    assert!(is_acceptable_ip_input("1.1.1.1"));
    assert!(!is_acceptable_ip_input("1.1.1"));
}
