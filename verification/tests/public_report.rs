use nifa::public::{build_public_out, is_ipv6, route_answers, IpInfo};

fn info(version: &str, addr: &str, asn: &str, country: &str) -> IpInfo {
    IpInfo {
        ip_version: version.to_string(),
        ip_addr_dec: "0".to_string(),
        ip_addr: addr.to_string(),
        host_name: "host.example".to_string(),
        network: "198.51.100.0/24".to_string(),
        asn: asn.to_string(),
        as_name: format!("AS {}", asn),
        country_code: country.to_string(),
        country_name: format!("Country {}", country),
    }
}

#[test]
fn version_detection() {
    assert!(is_ipv6(&info("v6", "2001:db8::1", "64500", "ZZ")));
    // a colon in the address is enough even if the version field is off
    assert!(is_ipv6(&info("v4", "2001:db8::2", "64500", "ZZ")));
    assert!(!is_ipv6(&info("v4", "192.0.2.1", "64500", "ZZ")));
}

#[test]
fn answers_route_to_their_family_slots() {
    // an IPv6 any-family answer fills the v6 slot, the v4 endpoint the v4 slot
    let any = info("v6", "2001:db8::1", "64500", "ZZ");
    let v4 = info("v4", "192.0.2.1", "64500", "ZZ");
    let (r4, r6) = route_answers(Some(any), Some(v4));
    assert_eq!(r4.map(|i| i.ip_addr), Some("192.0.2.1".to_string()));
    assert_eq!(r6.map(|i| i.ip_addr), Some("2001:db8::1".to_string()));

    // an IPv4 any-family answer takes the v4 slot itself
    let any = info("v4", "192.0.2.7", "64500", "ZZ");
    let v4 = info("v4", "192.0.2.1", "64500", "ZZ");
    let (r4, r6) = route_answers(Some(any), Some(v4));
    assert_eq!(r4.map(|i| i.ip_addr), Some("192.0.2.7".to_string()));
    assert!(r6.is_none());

    // with no any-family answer, the v4 endpoint is all there is
    let v4 = info("v4", "192.0.2.1", "64500", "ZZ");
    let (r4, r6) = route_answers(None, Some(v4));
    assert_eq!(r4.map(|i| i.ip_addr), Some("192.0.2.1".to_string()));
    assert!(r6.is_none());

    let (r4, r6) = route_answers(None, None);
    assert!(r4.is_none() && r6.is_none());
}

#[test]
fn agreeing_sides_are_commonized() {
    let v4 = info("v4", "192.0.2.1", "64500", "ZZ");
    let v6 = info("v6", "2001:db8::1", "64500", "ZZ");
    let out = build_public_out(Some(v4), Some(v6));
    let common = out.common.expect("common part");
    assert_eq!(common.asn, "64500");
    assert_eq!(common.country_code, "ZZ");
    let side4 = out.ipv4.expect("ipv4 side");
    assert_eq!(side4.ip_addr, "192.0.2.1");
    assert!(side4.asn.is_none());
    assert!(side4.country_name.is_none());
    let side6 = out.ipv6.expect("ipv6 side");
    assert_eq!(side6.ip_addr, "2001:db8::1");
    assert!(side6.as_name.is_none());
}

#[test]
fn disagreeing_sides_keep_their_fields() {
    let v4 = info("v4", "192.0.2.1", "64500", "ZZ");
    let v6 = info("v6", "2001:db8::1", "64501", "ZZ");
    let out = build_public_out(Some(v4), Some(v6));
    assert!(out.common.is_none());
    let side4 = out.ipv4.expect("ipv4 side");
    assert_eq!(side4.asn.as_deref(), Some("64500"));
    let side6 = out.ipv6.expect("ipv6 side");
    assert_eq!(side6.asn.as_deref(), Some("64501"));
    assert_eq!(side6.country_name.as_deref(), Some("Country ZZ"));
}

#[test]
fn single_side_is_never_commonized() {
    let v4 = info("v4", "192.0.2.1", "64500", "ZZ");
    let out = build_public_out(Some(v4), None);
    assert!(out.common.is_none());
    assert!(out.ipv6.is_none());
    let side4 = out.ipv4.expect("ipv4 side");
    assert_eq!(side4.asn.as_deref(), Some("64500"));

    let out_none = build_public_out(None, None);
    assert!(out_none.common.is_none());
    assert!(out_none.ipv4.is_none());
    assert!(out_none.ipv6.is_none());
}
