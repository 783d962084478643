use nifa::ifmodel::{GatewayInfo, IfType, IfaceData, IpPlain, MacAddrBytes, OperState, V4Net, V6Net};
use nifa::rate::Counters;
use nifa::sysinfo::{ProxyEnv, SysInfo};
use nifa::treeview::{
    iface_to_text, print_interface_detail_tree, print_interface_tree,
    print_system_with_default_iface, show_interface, show_system_net_stack, tree_label,
};

fn bare_iface(index: u32, name: &str) -> IfaceData {
    IfaceData {
        index,
        name: name.to_string(),
        friendly_name: None,
        description: None,
        if_type: IfType::Ethernet,
        mac_addr: None,
        ipv4: vec![],
        ipv6: vec![],
        ipv6_scope_ids: vec![],
        flags: 0x1003,
        oper_state: OperState::Up,
        transmit_speed: None,
        receive_speed: None,
        stats: None,
        gateway: None,
        dns_servers: vec![],
        mtu: None,
        default: false,
        is_physical: true,
    }
}

fn leaf(s: &str) -> termtree::Tree<String> {
    termtree::Tree::new(s.to_string())
}

#[test]
fn minimal_detail_tree_matches_termtree() {
    let d = bare_iface(1, "eth0");
    let mut expected = leaf("eth0 on myhost");
    expected.push(leaf("Index: 1"));
    expected.push(leaf("Type: Ethernet"));
    expected.push(leaf("State: Up"));
    expected.push(leaf("Flags: 0x00001003"));
    assert_eq!(iface_to_text(&d, "myhost"), format!("{}", expected));
}

#[test]
fn full_detail_tree_matches_termtree() {
    let mut d = bare_iface(2, "wlan0");
    d.friendly_name = Some("Wi-Fi".to_string());
    d.description = Some("Wireless adapter".to_string());
    d.if_type = IfType::Wireless80211;
    d.mac_addr = Some(MacAddrBytes { b0: 0xAA, b1: 0xBB, b2: 0xCC, b3: 0, b4: 1, b5: 2 });
    d.mtu = Some(1500);
    d.transmit_speed = Some(866_700_000);
    d.receive_speed = Some(866_700_000);
    d.ipv4 = vec![
        V4Net { a: 192, b: 168, c: 1, d: 23, prefix: 24 },
        V4Net { a: 10, b: 0, c: 0, d: 9, prefix: 8 },
    ];
    d.ipv6 = vec![V6Net { text: "fe80::1234/64".to_string() }];
    d.ipv6_scope_ids = vec![3];
    d.dns_servers = vec![
        IpPlain::V4 { a: 1, b: 1, c: 1, d: 1 },
        IpPlain::V6 { text: "2606:4700:4700::1111".to_string() },
    ];
    d.gateway = Some(GatewayInfo {
        mac: MacAddrBytes { b0: 0, b1: 1, b2: 2, b3: 3, b4: 4, b5: 5 },
        ipv4: vec![IpPlain::V4 { a: 192, b: 168, c: 1, d: 1 }],
        ipv6: vec![IpPlain::V6 { text: "fe80::1".to_string() }],
    });
    d.stats = Some(Counters { rx_bytes: 123, tx_bytes: 456 });
    d.default = true;

    let mut expected = leaf("wlan0 (default) on box");
    expected.push(leaf("Index: 2"));
    expected.push(leaf("Friendly Name: Wi-Fi"));
    expected.push(leaf("Description: Wireless adapter"));
    expected.push(leaf("Type: Wireless80211"));
    expected.push(leaf("State: Up"));
    expected.push(leaf("MAC: aa:bb:cc:00:01:02"));
    expected.push(leaf("MTU: 1500"));
    let mut speed = leaf("Link Speed");
    speed.push(leaf("TX: 866.70 Mb/s"));
    speed.push(leaf("RX: 866.70 Mb/s"));
    expected.push(speed);
    expected.push(leaf("Flags: 0x00001003"));
    let mut v4 = leaf("IPv4");
    v4.push(leaf("192.168.1.23/24"));
    v4.push(leaf("10.0.0.9/8"));
    expected.push(v4);
    let mut v6 = leaf("IPv6");
    v6.push(leaf("fe80::1234/64 (scope_id=3)"));
    expected.push(v6);
    let mut dns = leaf("DNS");
    dns.push(leaf("1.1.1.1"));
    dns.push(leaf("2606:4700:4700::1111"));
    expected.push(dns);
    let mut gw = leaf("Gateway");
    gw.push(leaf("MAC: 00:01:02:03:04:05"));
    let mut gw4 = leaf("IPv4");
    gw4.push(leaf("192.168.1.1"));
    gw.push(gw4);
    let mut gw6 = leaf("IPv6");
    gw6.push(leaf("fe80::1"));
    gw.push(gw6);
    expected.push(gw);
    let mut stats = leaf("Statistics (snapshot)");
    stats.push(leaf("RX bytes: 123"));
    stats.push(leaf("TX bytes: 456"));
    expected.push(stats);

    let rendered = iface_to_text(&d, "box");
    assert_eq!(rendered, format!("{}", expected));
    assert_eq!(print_interface_detail_tree(&d, "box"), rendered);
    assert_eq!(show_interface(&d, "box"), rendered);
}

#[test]
fn listing_tree_titles() {
    let a = bare_iface(1, "eth0");
    let mut b = bare_iface(2, "wlan0");
    b.default = true;

    let mut expected = leaf("Interfaces on h");
    let mut n1 = leaf("eth0");
    n1.push(leaf("Index: 1"));
    n1.push(leaf("Type: Ethernet"));
    n1.push(leaf("State: Up"));
    let mut n2 = leaf("wlan0 (default)");
    n2.push(leaf("Index: 2"));
    n2.push(leaf("Type: Ethernet"));
    n2.push(leaf("State: Up"));
    expected.push(n1);
    expected.push(n2);
    assert_eq!(print_interface_tree(&vec![a, b], "h"), format!("{}", expected));

    let mut only = bare_iface(3, "ppp0");
    only.default = true;
    let mut expected_single = leaf("Default Interface on h");
    let mut n3 = leaf("ppp0 (default)");
    n3.push(leaf("Index: 3"));
    n3.push(leaf("Type: Ethernet"));
    n3.push(leaf("State: Up"));
    expected_single.push(n3);
    assert_eq!(print_interface_tree(&vec![only], "h"), format!("{}", expected_single));
}

fn sys() -> SysInfo {
    SysInfo {
        hostname: "box".to_string(),
        os_type: "Linux".to_string(),
        os_version: "6.1".to_string(),
        edition: "unknown".to_string(),
        codename: "unknown".to_string(),
        bitness: "64-bit".to_string(),
        architecture: "x86_64".to_string(),
        proxy: ProxyEnv { http: None, https: None, all: None, no_proxy: None },
    }
}

#[test]
fn system_tree_without_default_interface() {
    let mut expected = leaf("System Information on box");
    let mut s = leaf("System");
    s.push(leaf("OS Type: Linux"));
    s.push(leaf("Version: 6.1"));
    s.push(leaf("Edition: unknown"));
    s.push(leaf("Codename: unknown"));
    s.push(leaf("Bitness: 64-bit"));
    s.push(leaf("Architecture: x86_64"));
    expected.push(s);
    expected.push(leaf("Default Interface: (not found)"));
    let rendered = print_system_with_default_iface(&sys(), &None);
    assert_eq!(rendered, format!("{}", expected));
    assert_eq!(show_system_net_stack(&sys(), &None), rendered);
}

#[test]
fn system_tree_with_default_interface() {
    let mut d = bare_iface(7, "enp3s0");
    d.mtu = Some(9000);
    let mut expected = leaf("System Information on box");
    let mut s = leaf("System");
    s.push(leaf("OS Type: Linux"));
    s.push(leaf("Version: 6.1"));
    s.push(leaf("Edition: unknown"));
    s.push(leaf("Codename: unknown"));
    s.push(leaf("Bitness: 64-bit"));
    s.push(leaf("Architecture: x86_64"));
    expected.push(s);
    let mut n = leaf("Default Interface: enp3s0");
    n.push(leaf("Index: 7"));
    n.push(leaf("Type: Ethernet"));
    n.push(leaf("State: Up"));
    n.push(leaf("MTU: 9000"));
    expected.push(n);
    assert_eq!(print_system_with_default_iface(&sys(), &Some(d)), format!("{}", expected));
}

#[test]
fn labels_pass_through() {
    assert_eq!(tree_label("IPv4".to_string()), "IPv4");
}
