use nifa::cli::ListArgs;
use nifa::ifmodel::{
    detect_vpn_like, filter_by_name, find_by_index, find_by_name, fmt_if_type, fmt_ip, fmt_mac,
    fmt_v4net, list_filter, GatewayInfo, IfType, IfaceData, IpPlain, MacAddrBytes, OperState,
    V4Net, V6Net,
};
use nifa::rate::Counters;

fn plain_iface(index: u32, name: &str) -> IfaceData {
    IfaceData {
        index,
        name: name.to_string(),
        friendly_name: None,
        description: None,
        if_type: IfType::Ethernet,
        mac_addr: None,
        ipv4: vec![],
        ipv6: vec![],
        ipv6_scope_ids: vec![],
        flags: 0,
        oper_state: OperState::Up,
        transmit_speed: None,
        receive_speed: None,
        stats: None,
        gateway: None,
        dns_servers: vec![],
        mtu: None,
        default: false,
        is_physical: true,
    }
}

#[test]
fn labels_render() {
    assert_eq!(fmt_if_type(&IfType::Wireless80211), "Wireless80211");
    assert_eq!(fmt_if_type(&IfType::UnknownWithValue(71)), "UnknownWithValue(71)");
    assert_eq!(
        fmt_mac(&MacAddrBytes { b0: 0xDE, b1: 0xAD, b2: 0x0B, b3: 0xEE, b4: 0x01, b5: 0xFF }),
        "de:ad:0b:ee:01:ff"
    );
    assert_eq!(fmt_v4net(&V4Net { a: 192, b: 168, c: 0, d: 12, prefix: 24 }), "192.168.0.12/24");
    assert_eq!(fmt_ip(&IpPlain::V4 { a: 8, b: 8, c: 8, d: 8 }), "8.8.8.8");
    assert_eq!(fmt_ip(&IpPlain::V6 { text: "fe80::1".to_string() }), "fe80::1");
}

#[test]
fn tunnel_interface_scores_high() {
    let mut d = plain_iface(3, "tun0");
    d.if_type = IfType::Tunnel;
    d.mtu = Some(1420);
    d.ipv4 = vec![V4Net { a: 10, b: 8, c: 0, d: 2, prefix: 24 }];
    let v = detect_vpn_like(&d);
    // tunnel type 4, name 3, mtu in the vpn band 2, 10/8 address 2, non-physical type 1
    assert_eq!(v.score, 12);
    assert!(v.is_vpn_like);
    assert_eq!(
        v.signals,
        vec![
            "type=Tunnel".to_string(),
            "name=tun0".to_string(),
            "mtu=1420".to_string(),
            "ipv4=private(10/8 or 100.64/10)".to_string(),
            "type-other=Tunnel".to_string(),
        ]
    );
}

#[test]
fn ordinary_ethernet_scores_zero() {
    let mut d = plain_iface(1, "eth0");
    d.mtu = Some(1500);
    d.ipv4 = vec![V4Net { a: 192, b: 168, c: 1, d: 2, prefix: 24 }];
    let v = detect_vpn_like(&d);
    assert_eq!(v.score, 0);
    assert!(!v.is_vpn_like);
    assert!(v.signals.is_empty());
}

#[test]
fn name_case_is_folded_before_matching() {
    let mut upper = plain_iface(2, "TUN0");
    upper.if_type = IfType::Ethernet;
    let v = detect_vpn_like(&upper);
    // "TUN0" only matches the lowercase fragment list after case folding
    assert_eq!(v.score, 3);
    assert_eq!(v.signals, vec!["name=TUN0".to_string()]);
}

#[test]
fn friendly_name_and_dns_signals() {
    let mut d = plain_iface(4, "eno1");
    d.friendly_name = Some("NordVPN Adapter".to_string());
    d.dns_servers = vec![IpPlain::V4 { a: 100, b: 100, c: 100, d: 100 }];
    let v = detect_vpn_like(&d);
    // friendly name 3, carrier-grade-NAT nameserver 1
    assert_eq!(v.score, 4);
    assert!(!v.is_vpn_like);
    assert_eq!(
        v.signals,
        vec!["friendly_name=NordVPN Adapter".to_string(), "dns=100.64.0.0/10".to_string()]
    );
}

#[test]
fn threshold_is_five() {
    let mut d = plain_iface(5, "vpn1");
    d.if_type = IfType::Unknown;
    d.mtu = Some(1400);
    // name 3, reduced mtu outside the band 1, non-physical type 1
    let v = detect_vpn_like(&d);
    assert_eq!(v.score, 5);
    assert!(v.is_vpn_like);
}

fn no_filters() -> ListArgs {
    ListArgs { name_like: None, up: false, down: false, phy: false, virt: false, ipv4: false, ipv6: false }
}

#[test]
fn list_filters_apply_conjunctively() {
    let mut a = plain_iface(0, "eth0");
    a.ipv4 = vec![V4Net { a: 192, b: 168, c: 0, d: 1, prefix: 24 }];
    let mut b = plain_iface(1, "wlan0");
    b.oper_state = OperState::Down;
    let mut c = plain_iface(2, "veth12");
    c.is_physical = false;
    c.ipv6 = vec![V6Net { text: "fe80::2/64".to_string() }];

    let all = vec![a, b, c];
    let kept = list_filter(all, &ListArgs { up: true, ..no_filters() });
    let names: Vec<&str> = kept.iter().map(|d| d.name.as_str()).collect();
    assert_eq!(names, ["eth0", "veth12"]);

    let kept = list_filter(kept, &ListArgs { virt: true, ..no_filters() });
    let names: Vec<&str> = kept.iter().map(|d| d.name.as_str()).collect();
    assert_eq!(names, ["veth12"]);

    let mut a2 = plain_iface(0, "eth0");
    a2.ipv4 = vec![V4Net { a: 192, b: 168, c: 0, d: 1, prefix: 24 }];
    let kept = list_filter(
        vec![a2, plain_iface(3, "eth1")],
        &ListArgs { name_like: Some("eth".to_string()), ipv4: true, ..no_filters() },
    );
    let names: Vec<&str> = kept.iter().map(|d| d.name.as_str()).collect();
    assert_eq!(names, ["eth0"]);
}

#[test]
fn name_and_index_lookup() {
    let ifs = vec![plain_iface(10, "eth0"), plain_iface(20, "wlan0"), plain_iface(30, "eth0")];
    assert_eq!(find_by_index(&ifs, 20), Some(1));
    assert_eq!(find_by_index(&ifs, 99), None);
    assert_eq!(find_by_name(&ifs, "eth0"), Some(0));
    assert_eq!(find_by_name(&ifs, "missing"), None);

    let only = filter_by_name(ifs, "eth0");
    assert_eq!(only.len(), 2);
    assert_eq!(only[0].index, 10);
    assert_eq!(only[1].index, 30);
}

#[test]
fn gateway_model_holds_plain_values() {
    let g = GatewayInfo {
        mac: MacAddrBytes { b0: 0, b1: 1, b2: 2, b3: 3, b4: 4, b5: 5 },
        ipv4: vec![IpPlain::V4 { a: 192, b: 168, c: 0, d: 254 }],
        ipv6: vec![],
    };
    assert_eq!(fmt_mac(&g.mac), "00:01:02:03:04:05");
    let mut d = plain_iface(9, "eth9");
    d.gateway = Some(g);
    let c = Counters { rx_bytes: 1, tx_bytes: 2 };
    d.stats = Some(c);
    assert_eq!(d.stats.unwrap().tx_bytes, 2);
}
