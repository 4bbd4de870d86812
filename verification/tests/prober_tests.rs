//! NAT probe tests: address parsing and the CGNAT comparison.

use suiperchat_core::prober::{IpAddress, detect_cgnat_from_ips, ip_from_response, parse_ip,
    resolve_cgnat_outcome};

#[test]
fn test_ip_from_str() {
    let valid_ip = "192.168.1.1";
    assert!(parse_ip(valid_ip).is_some());

    let invalid_ip = "not an ip";
    assert!(parse_ip(invalid_ip).is_none());
}

#[test]
fn parsed_octets_are_exact() {
    assert_eq!(parse_ip("192.168.1.1"), Some(IpAddress::new(192, 168, 1, 1)));
    assert_eq!(parse_ip("0.0.0.0"), Some(IpAddress::new(0, 0, 0, 0)));
    assert_eq!(parse_ip("255.255.255.255"), Some(IpAddress::new(255, 255, 255, 255)));
    assert_eq!(parse_ip("256.0.0.1"), None);
    assert_eq!(parse_ip("01.2.3.4"), None);
    assert_eq!(parse_ip("1.2.3"), None);
    assert_eq!(parse_ip("1.2.3.4.5"), None);
    assert_eq!(parse_ip("1.2.3.4 "), None);
}

#[test]
fn test_check_cgnat_mock() {
    let http_api_ip = IpAddress::new(203, 0, 113, 1);
    let stun_ip_same = IpAddress::new(203, 0, 113, 1);
    let stun_ip_diff = IpAddress::new(198, 51, 100, 1);

    // matching addresses mean no carrier-grade NAT
    assert!(!detect_cgnat_from_ips(http_api_ip, stun_ip_same));

    // differing addresses mean carrier-grade NAT is present
    assert!(detect_cgnat_from_ips(http_api_ip, stun_ip_diff));
}

#[test]
fn failed_probes_assume_nat() {
    assert!(!resolve_cgnat_outcome(Ok(false)));
    assert!(resolve_cgnat_outcome(Ok(true)));
    assert!(resolve_cgnat_outcome(Err("stun failed".to_string())));
}

#[test]
fn the_ip_echo_answer_is_parsed() {
    assert_eq!(
        ip_from_response("{\"ip\":\"203.0.113.7\"}"),
        Some(IpAddress::new(203, 0, 113, 7))
    );
    // extra members do not disturb the lookup
    assert_eq!(
        ip_from_response("{\"country\":\"xx\",\"ip\":\"9.8.7.6\",\"port\":443}"),
        Some(IpAddress::new(9, 8, 7, 6))
    );
    assert_eq!(ip_from_response("{\"ip\":\"not an ip\"}"), None);
    assert_eq!(ip_from_response("{\"address\":\"1.2.3.4\"}"), None);
    assert_eq!(ip_from_response("not json"), None);
}
