//! The library's own model of a network interface: every attribute the
//! logic reads, held as plain values.  The directory that enumerates
//! real interfaces lives outside; the binary converts what it returns
//! into this model.  Alongside the model stand its text renderings, the
//! VPN-likeness heuristic, and the list filters.

use vstd::prelude::*;

use crate::cli::ListArgs;
use crate::rate::Counters;
use crate::text::{contains_seq, contains_sub, dec_of, fmt_u64, fmt_hex, hex_of};

verus! {

/// Interface classification, mirroring the directory's taxonomy.
#[derive(Clone, Copy, Debug, PartialEq, Eq, Structural)]
pub enum IfType {
    Unknown,
    Ethernet,
    TokenRing,
    Fddi,
    BasicIsdn,
    PrimaryIsdn,
    Ppp,
    Loopback,
    Ethernet3Megabit,
    Slip,
    Atm,
    GenericModem,
    ProprietaryVirtual,
    FastEthernetT,
    Isdn,
    FastEthernetFx,
    Wireless80211,
    AsymmetricDsl,
    RateAdaptDsl,
    SymmetricDsl,
    VeryHighSpeedDsl,
    IPOverAtm,
    GigabitEthernet,
    Tunnel,
    MultiRateSymmetricDsl,
    HighPerformanceSerialBus,
    Wman,
    Wwan,
    Wwanpp,
    Wwanpp2,
    Bridge,
    Can,
    PeerToPeerWireless,
    UnknownWithValue(u32),
}

/// Operational state of an interface.
#[derive(Clone, Copy, Debug, PartialEq, Eq, Structural)]
pub enum OperState {
    Unknown,
    NotPresent,
    Down,
    LowerLayerDown,
    Testing,
    Dormant,
    Up,
}

/// A link-layer address: six octets.
#[derive(Clone, Copy, Debug, PartialEq, Eq, Structural)]
pub struct MacAddrBytes {
    pub b0: u8,
    pub b1: u8,
    pub b2: u8,
    pub b3: u8,
    pub b4: u8,
    pub b5: u8,
}

/// An IPv4 network: address octets and prefix length.
#[derive(Clone, Copy, Debug, PartialEq, Eq, Structural)]
pub struct V4Net {
    pub a: u8,
    pub b: u8,
    pub c: u8,
    pub d: u8,
    pub prefix: u8,
}

/// An IPv6 network, carried as its canonical `address/prefix` text.
#[derive(Debug)]
pub struct V6Net {
    pub text: String,
}

/// A nameserver or gateway address: IPv4 as octets, IPv6 as its
/// canonical text.
#[derive(Debug)]
pub enum IpPlain {
    V4 { a: u8, b: u8, c: u8, d: u8 },
    V6 { text: String },
}

/// A default gateway: link-layer address and its IP addresses.
#[derive(Debug)]
pub struct GatewayInfo {
    pub mac: MacAddrBytes,
    pub ipv4: Vec<IpPlain>,
    pub ipv6: Vec<IpPlain>,
}

/// One interface, as the library models it.
#[derive(Debug)]
pub struct IfaceData {
    pub index: u32,
    pub name: String,
    pub friendly_name: Option<String>,
    pub description: Option<String>,
    pub if_type: IfType,
    pub mac_addr: Option<MacAddrBytes>,
    pub ipv4: Vec<V4Net>,
    pub ipv6: Vec<V6Net>,
    pub ipv6_scope_ids: Vec<u32>,
    pub flags: u32,
    pub oper_state: OperState,
    pub transmit_speed: Option<u64>,
    pub receive_speed: Option<u64>,
    pub stats: Option<Counters>,
    pub gateway: Option<GatewayInfo>,
    pub dns_servers: Vec<IpPlain>,
    pub mtu: Option<u32>,
    pub default: bool,
    /// Whether the directory classified the interface as physical.
    pub is_physical: bool,
}

/// The display label of an interface classification.
pub open spec fn if_type_label(t: IfType) -> Seq<char> {
    match t {
        IfType::Unknown => "Unknown"@,
        IfType::Ethernet => "Ethernet"@,
        IfType::TokenRing => "TokenRing"@,
        IfType::Fddi => "Fddi"@,
        IfType::BasicIsdn => "BasicIsdn"@,
        IfType::PrimaryIsdn => "PrimaryIsdn"@,
        IfType::Ppp => "Ppp"@,
        IfType::Loopback => "Loopback"@,
        IfType::Ethernet3Megabit => "Ethernet3Megabit"@,
        IfType::Slip => "Slip"@,
        IfType::Atm => "Atm"@,
        IfType::GenericModem => "GenericModem"@,
        IfType::ProprietaryVirtual => "ProprietaryVirtual"@,
        IfType::FastEthernetT => "FastEthernetT"@,
        IfType::Isdn => "Isdn"@,
        IfType::FastEthernetFx => "FastEthernetFx"@,
        IfType::Wireless80211 => "Wireless80211"@,
        IfType::AsymmetricDsl => "AsymmetricDsl"@,
        IfType::RateAdaptDsl => "RateAdaptDsl"@,
        IfType::SymmetricDsl => "SymmetricDsl"@,
        IfType::VeryHighSpeedDsl => "VeryHighSpeedDsl"@,
        IfType::IPOverAtm => "IPOverAtm"@,
        IfType::GigabitEthernet => "GigabitEthernet"@,
        IfType::Tunnel => "Tunnel"@,
        IfType::MultiRateSymmetricDsl => "MultiRateSymmetricDsl"@,
        IfType::HighPerformanceSerialBus => "HighPerformanceSerialBus"@,
        IfType::Wman => "Wman"@,
        IfType::Wwan => "Wwan"@,
        IfType::Wwanpp => "Wwanpp"@,
        IfType::Wwanpp2 => "Wwanpp2"@,
        IfType::Bridge => "Bridge"@,
        IfType::Can => "Can"@,
        IfType::PeerToPeerWireless => "PeerToPeerWireless"@,
        IfType::UnknownWithValue(v) => "UnknownWithValue("@ + dec_of(v as nat) + ")"@,
    }
}

/// Renders an interface classification.
pub fn fmt_if_type(t: &IfType) -> (r: String)
    ensures
        r@ == if_type_label(*t),
{
    match t {
        IfType::Unknown => String::from_str("Unknown"),
        IfType::Ethernet => String::from_str("Ethernet"),
        IfType::TokenRing => String::from_str("TokenRing"),
        IfType::Fddi => String::from_str("Fddi"),
        IfType::BasicIsdn => String::from_str("BasicIsdn"),
        IfType::PrimaryIsdn => String::from_str("PrimaryIsdn"),
        IfType::Ppp => String::from_str("Ppp"),
        IfType::Loopback => String::from_str("Loopback"),
        IfType::Ethernet3Megabit => String::from_str("Ethernet3Megabit"),
        IfType::Slip => String::from_str("Slip"),
        IfType::Atm => String::from_str("Atm"),
        IfType::GenericModem => String::from_str("GenericModem"),
        IfType::ProprietaryVirtual => String::from_str("ProprietaryVirtual"),
        IfType::FastEthernetT => String::from_str("FastEthernetT"),
        IfType::Isdn => String::from_str("Isdn"),
        IfType::FastEthernetFx => String::from_str("FastEthernetFx"),
        IfType::Wireless80211 => String::from_str("Wireless80211"),
        IfType::AsymmetricDsl => String::from_str("AsymmetricDsl"),
        IfType::RateAdaptDsl => String::from_str("RateAdaptDsl"),
        IfType::SymmetricDsl => String::from_str("SymmetricDsl"),
        IfType::VeryHighSpeedDsl => String::from_str("VeryHighSpeedDsl"),
        IfType::IPOverAtm => String::from_str("IPOverAtm"),
        IfType::GigabitEthernet => String::from_str("GigabitEthernet"),
        IfType::Tunnel => String::from_str("Tunnel"),
        IfType::MultiRateSymmetricDsl => String::from_str("MultiRateSymmetricDsl"),
        IfType::HighPerformanceSerialBus => String::from_str("HighPerformanceSerialBus"),
        IfType::Wman => String::from_str("Wman"),
        IfType::Wwan => String::from_str("Wwan"),
        IfType::Wwanpp => String::from_str("Wwanpp"),
        IfType::Wwanpp2 => String::from_str("Wwanpp2"),
        IfType::Bridge => String::from_str("Bridge"),
        IfType::Can => String::from_str("Can"),
        IfType::PeerToPeerWireless => String::from_str("PeerToPeerWireless"),
        IfType::UnknownWithValue(v) => {
            let mut s = String::from_str("UnknownWithValue(");
            s.append(fmt_u64(*v as u64).as_str());
            s.append(")");
            s
        },
    }
}

/// The display label of an operational state.
pub open spec fn oper_state_label(t: OperState) -> Seq<char> {
    match t {
        OperState::Unknown => "Unknown"@,
        OperState::NotPresent => "NotPresent"@,
        OperState::Down => "Down"@,
        OperState::LowerLayerDown => "LowerLayerDown"@,
        OperState::Testing => "Testing"@,
        OperState::Dormant => "Dormant"@,
        OperState::Up => "Up"@,
    }
}

/// Renders an operational state.
pub fn fmt_oper_state(t: &OperState) -> (r: String)
    ensures
        r@ == oper_state_label(*t),
{
    match t {
        OperState::Unknown => String::from_str("Unknown"),
        OperState::NotPresent => String::from_str("NotPresent"),
        OperState::Down => String::from_str("Down"),
        OperState::LowerLayerDown => String::from_str("LowerLayerDown"),
        OperState::Testing => String::from_str("Testing"),
        OperState::Dormant => String::from_str("Dormant"),
        OperState::Up => String::from_str("Up"),
    }
}

/// The display label of a link-layer address: lower-case hex pairs
/// joined by colons.
pub open spec fn mac_label(m: MacAddrBytes) -> Seq<char> {
    hex_of(m.b0 as nat, 2, false) + ":"@ + hex_of(m.b1 as nat, 2, false) + ":"@ + hex_of(
        m.b2 as nat,
        2,
        false,
    ) + ":"@ + hex_of(m.b3 as nat, 2, false) + ":"@ + hex_of(m.b4 as nat, 2, false) + ":"@
        + hex_of(m.b5 as nat, 2, false)
}

/// Renders a link-layer address.
pub fn fmt_mac(m: &MacAddrBytes) -> (r: String)
    ensures
        r@ == mac_label(*m),
{
    let mut s = fmt_hex(m.b0 as u32, 2, false);
    s.append(":");
    s.append(fmt_hex(m.b1 as u32, 2, false).as_str());
    s.append(":");
    s.append(fmt_hex(m.b2 as u32, 2, false).as_str());
    s.append(":");
    s.append(fmt_hex(m.b3 as u32, 2, false).as_str());
    s.append(":");
    s.append(fmt_hex(m.b4 as u32, 2, false).as_str());
    s.append(":");
    s.append(fmt_hex(m.b5 as u32, 2, false).as_str());
    s
}

/// The display label of an IPv4 network: dotted quad, slash, prefix.
pub open spec fn v4net_label(n: V4Net) -> Seq<char> {
    dec_of(n.a as nat) + "."@ + dec_of(n.b as nat) + "."@ + dec_of(n.c as nat) + "."@ + dec_of(
        n.d as nat,
    ) + "/"@ + dec_of(n.prefix as nat)
}

/// Renders an IPv4 network.
pub fn fmt_v4net(n: &V4Net) -> (r: String)
    ensures
        r@ == v4net_label(*n),
{
    let mut s = fmt_u64(n.a as u64);
    s.append(".");
    s.append(fmt_u64(n.b as u64).as_str());
    s.append(".");
    s.append(fmt_u64(n.c as u64).as_str());
    s.append(".");
    s.append(fmt_u64(n.d as u64).as_str());
    s.append("/");
    s.append(fmt_u64(n.prefix as u64).as_str());
    s
}

/// The display label of a plain address.
pub open spec fn ip_label(ip: IpPlain) -> Seq<char> {
    match ip {
        IpPlain::V4 { a, b, c, d } => dec_of(a as nat) + "."@ + dec_of(b as nat) + "."@ + dec_of(
            c as nat,
        ) + "."@ + dec_of(d as nat),
        IpPlain::V6 { text } => text@,
    }
}

/// Renders a plain address.
pub fn fmt_ip(ip: &IpPlain) -> (r: String)
    ensures
        r@ == ip_label(*ip),
{
    match ip {
        IpPlain::V4 { a, b, c, d } => {
            let mut s = fmt_u64(*a as u64);
            s.append(".");
            s.append(fmt_u64(*b as u64).as_str());
            s.append(".");
            s.append(fmt_u64(*c as u64).as_str());
            s.append(".");
            s.append(fmt_u64(*d as u64).as_str());
            s
        },
        IpPlain::V6 { text } => text.clone(),
    }
}

/// What `str::to_lowercase` yields for a character sequence; a function
/// of the characters alone.
pub uninterp spec fn lower_of(s: Seq<char>) -> Seq<char>;

/// Relies on `str::to_lowercase`: the result depends on the characters
/// alone.
#[verifier::external_body]
fn to_lowercase(s: &str) -> (r: String)
    ensures
        r@ == lower_of(s@),
{
    s.to_lowercase()
}

/// `s` contains one of the name fragments that commonly mark a VPN or
/// tunnel adapter.
pub open spec fn name_matches_vpn(s: Seq<char>) -> bool {
    ||| contains_seq(s, "tun"@)
    ||| contains_seq(s, "tap"@)
    ||| contains_seq(s, "wg"@)
    ||| contains_seq(s, "tailscale"@)
    ||| contains_seq(s, "zerotier"@)
    ||| contains_seq(s, "zt"@)
    ||| contains_seq(s, "openvpn"@)
    ||| contains_seq(s, "ovpn"@)
    ||| contains_seq(s, "ipsec"@)
    ||| contains_seq(s, "utun"@)
    ||| contains_seq(s, "vpn"@)
    ||| contains_seq(s, "adapter"@)
    ||| contains_seq(s, "wan miniport"@)
    ||| contains_seq(s, "nord"@)
    ||| contains_seq(s, "expressvpn"@)
}

fn has_vpn_pattern(s: &str) -> (r: bool)
    ensures
        r == name_matches_vpn(s@),
{
    contains_sub(s, "tun") || contains_sub(s, "tap") || contains_sub(s, "wg") || contains_sub(
        s,
        "tailscale",
    ) || contains_sub(s, "zerotier") || contains_sub(s, "zt") || contains_sub(s, "openvpn")
        || contains_sub(s, "ovpn") || contains_sub(s, "ipsec") || contains_sub(s, "utun")
        || contains_sub(s, "vpn") || contains_sub(s, "adapter") || contains_sub(s, "wan miniport")
        || contains_sub(s, "nord") || contains_sub(s, "expressvpn")
}

/// A tunnel-like classification: strong VPN signal.
pub open spec fn is_tunnel_kind(t: IfType) -> bool {
    t is Tunnel || t is Ppp || t is ProprietaryVirtual
}

/// A clearly physical wired or wireless classification.
pub open spec fn is_wired_or_wifi_kind(t: IfType) -> bool {
    t is Ethernet || t is Wireless80211 || t is GigabitEthernet || t is FastEthernetT
        || t is FastEthernetFx
}

/// An address in 10/8 or 100.64/10: an inner address as VPNs tend to
/// assign.
pub open spec fn is_inner_v4(a: u8, b: u8) -> bool {
    a == 10 || (a == 100 && b & 0xC0 == 0x40)
}

/// Some assigned IPv4 address is an inner address.
pub open spec fn has_inner_v4(s: Seq<V4Net>) -> bool {
    exists|i: int| 0 <= i < s.len() && is_inner_v4(#[trigger] s[i].a, s[i].b)
}

/// Some nameserver lies in 100.64/10.
pub open spec fn has_cgnat_dns(s: Seq<IpPlain>) -> bool {
    exists|i: int|
        0 <= i < s.len() && match #[trigger] s[i] {
            IpPlain::V4 { a, b, c, d } => a == 100 && b & 0xC0 == 0x40,
            IpPlain::V6 { .. } => false,
        }
}

fn any_inner_v4(v: &Vec<V4Net>) -> (r: bool)
    ensures
        r == has_inner_v4(v@),
{
    let n: usize = v.len();
    let mut i: usize = 0;
    while i < n
        invariant
            n == v@.len(),
            i <= n,
            forall|j: int| 0 <= j < i ==> !is_inner_v4(#[trigger] v@[j].a, v@[j].b),
        decreases n - i,
    {
        let net: &V4Net = &v[i];
        if net.a == 10 || (net.a == 100 && net.b & 0xC0 == 0x40) {
            return true;
        }
        i = i + 1;
    }
    false
}

fn any_cgnat_dns(v: &Vec<IpPlain>) -> (r: bool)
    ensures
        r == has_cgnat_dns(v@),
{
    let n: usize = v.len();
    let mut i: usize = 0;
    while i < n
        invariant
            n == v@.len(),
            i <= n,
            forall|j: int|
                0 <= j < i ==> !(match #[trigger] v@[j] {
                    IpPlain::V4 { a, b, c, d } => a == 100 && b & 0xC0 == 0x40,
                    IpPlain::V6 { .. } => false,
                }),
        decreases n - i,
    {
        match &v[i] {
            IpPlain::V4 { a, b, c: _, d: _ } => {
                if *a == 100 && *b & 0xC0 == 0x40 {
                    return true;
                }
            },
            IpPlain::V6 { .. } => {},
        }
        i = i + 1;
    }
    false
}

/// The heuristic score of an interface: how strongly its attributes
/// suggest a VPN or tunnel adapter.
pub open spec fn vpn_score(d: IfaceData) -> int {
    (if is_tunnel_kind(d.if_type) {
        4int
    } else {
        0int
    }) + (if name_matches_vpn(lower_of(d.name@)) {
        3int
    } else {
        0int
    }) + (match d.friendly_name {
        Some(f) => if name_matches_vpn(lower_of(f@)) {
            3int
        } else {
            0int
        },
        None => 0int,
    }) + (match d.mtu {
        Some(m) => if m < 1500 {
            if 1410 <= m && m <= 1460 {
                2int
            } else {
                1int
            }
        } else {
            0int
        },
        None => 0int,
    }) + (if has_inner_v4(d.ipv4@) {
        2int
    } else {
        0int
    }) + (if has_cgnat_dns(d.dns_servers@) {
        1int
    } else {
        0int
    }) + (if !is_wired_or_wifi_kind(d.if_type) {
        1int
    } else {
        0int
    })
}

/// The views of a list of strings.
pub open spec fn strs_view(s: Seq<String>) -> Seq<Seq<char>> {
    s.map_values(|x: String| x@)
}

/// The signal descriptions the heuristic emits, in emission order.
pub open spec fn vpn_signals(d: IfaceData) -> Seq<Seq<char>> {
    (if is_tunnel_kind(d.if_type) {
        seq!["type="@ + if_type_label(d.if_type)]
    } else {
        Seq::empty()
    }) + (if name_matches_vpn(lower_of(d.name@)) {
        seq!["name="@ + d.name@]
    } else {
        Seq::empty()
    }) + (match d.friendly_name {
        Some(f) => if name_matches_vpn(lower_of(f@)) {
            seq!["friendly_name="@ + f@]
        } else {
            Seq::empty()
        },
        None => Seq::empty(),
    }) + (match d.mtu {
        Some(m) => if m < 1500 {
            seq!["mtu="@ + dec_of(m as nat)]
        } else {
            Seq::empty()
        },
        None => Seq::empty(),
    }) + (if has_inner_v4(d.ipv4@) {
        seq!["ipv4=private(10/8 or 100.64/10)"@]
    } else {
        Seq::empty()
    }) + (if has_cgnat_dns(d.dns_servers@) {
        seq!["dns=100.64.0.0/10"@]
    } else {
        Seq::empty()
    }) + (if !is_wired_or_wifi_kind(d.if_type) {
        seq!["type-other="@ + if_type_label(d.if_type)]
    } else {
        Seq::empty()
    })
}

/// The heuristic's verdict on one interface.
#[derive(Debug)]
pub struct VpnHeuristic {
    /// Whether the score reaches the VPN-likeness threshold of five.
    pub is_vpn_like: bool,
    /// The accumulated score.
    pub score: i32,
    /// One description per signal that fired.
    pub signals: Vec<String>,
}

/// Scores an interface's attributes against simple VPN signals:
/// tunnel-like classification, telltale name fragments, a reduced MTU,
/// inner addressing, carrier-grade-NAT nameservers, and a
/// non-physical classification.  The verdict is `score >= 5`.
pub fn detect_vpn_like(d: &IfaceData) -> (r: VpnHeuristic)
    ensures
        r.score as int == vpn_score(*d),
        r.is_vpn_like == (vpn_score(*d) >= 5),
        strs_view(r.signals@) == vpn_signals(*d),
{
    let mut score: i32 = 0;
    let mut sig: Vec<String> = Vec::new();
    proof {
        assert(strs_view(sig@) =~= Seq::<Seq<char>>::empty());
    }

    let type_hit: bool = match d.if_type {
        IfType::Tunnel | IfType::Ppp | IfType::ProprietaryVirtual => true,
        _ => false,
    };
    if type_hit {
        score = score + 4;
        let mut s = String::from_str("type=");
        s.append(fmt_if_type(&d.if_type).as_str());
        sig.push(s);
    }
    let ghost g1: Seq<Seq<char>> = if is_tunnel_kind(d.if_type) {
        seq!["type="@ + if_type_label(d.if_type)]
    } else {
        Seq::empty()
    };
    proof {
        assert(strs_view(sig@) =~= g1);
    }

    let lower_name = to_lowercase(d.name.as_str());
    let name_hit: bool = has_vpn_pattern(lower_name.as_str());
    if name_hit {
        score = score + 3;
        let mut s = String::from_str("name=");
        s.append(d.name.as_str());
        sig.push(s);
    }
    let ghost g2: Seq<Seq<char>> = if name_matches_vpn(lower_of(d.name@)) {
        seq!["name="@ + d.name@]
    } else {
        Seq::empty()
    };
    proof {
        assert(strs_view(sig@) =~= g1 + g2);
    }

    match &d.friendly_name {
        Some(f) => {
            let lower_f = to_lowercase(f.as_str());
            if has_vpn_pattern(lower_f.as_str()) {
                score = score + 3;
                let mut s = String::from_str("friendly_name=");
                s.append(f.as_str());
                sig.push(s);
            }
        },
        None => {},
    }
    let ghost g3: Seq<Seq<char>> = match &d.friendly_name {
        Some(f) => if name_matches_vpn(lower_of(f@)) {
            seq!["friendly_name="@ + f@]
        } else {
            Seq::empty()
        },
        None => Seq::empty(),
    };
    proof {
        assert(strs_view(sig@) =~= g1 + g2 + g3);
    }

    match d.mtu {
        Some(m) => {
            if m < 1500 {
                if 1410 <= m && m <= 1460 {
                    score = score + 2;
                } else {
                    score = score + 1;
                }
                let mut s = String::from_str("mtu=");
                s.append(fmt_u64(m as u64).as_str());
                sig.push(s);
            }
        },
        None => {},
    }
    let ghost g4: Seq<Seq<char>> = match d.mtu {
        Some(m) => if m < 1500 {
            seq!["mtu="@ + dec_of(m as nat)]
        } else {
            Seq::empty()
        },
        None => Seq::empty(),
    };
    proof {
        assert(strs_view(sig@) =~= g1 + g2 + g3 + g4);
    }

    if any_inner_v4(&d.ipv4) {
        score = score + 2;
        sig.push(String::from_str("ipv4=private(10/8 or 100.64/10)"));
    }
    let ghost g5: Seq<Seq<char>> = if has_inner_v4(d.ipv4@) {
        seq!["ipv4=private(10/8 or 100.64/10)"@]
    } else {
        Seq::empty()
    };
    proof {
        assert(strs_view(sig@) =~= g1 + g2 + g3 + g4 + g5);
    }

    if any_cgnat_dns(&d.dns_servers) {
        score = score + 1;
        sig.push(String::from_str("dns=100.64.0.0/10"));
    }
    let ghost g6: Seq<Seq<char>> = if has_cgnat_dns(d.dns_servers@) {
        seq!["dns=100.64.0.0/10"@]
    } else {
        Seq::empty()
    };
    proof {
        assert(strs_view(sig@) =~= g1 + g2 + g3 + g4 + g5 + g6);
    }

    let phys_type: bool = match d.if_type {
        IfType::Ethernet | IfType::Wireless80211 | IfType::GigabitEthernet | IfType::FastEthernetT
            | IfType::FastEthernetFx => true,
        _ => false,
    };
    if !phys_type {
        score = score + 1;
        let mut s = String::from_str("type-other=");
        s.append(fmt_if_type(&d.if_type).as_str());
        sig.push(s);
    }
    let ghost g7: Seq<Seq<char>> = if !is_wired_or_wifi_kind(d.if_type) {
        seq!["type-other="@ + if_type_label(d.if_type)]
    } else {
        Seq::empty()
    };
    proof {
        assert(strs_view(sig@) =~= g1 + g2 + g3 + g4 + g5 + g6 + g7);
        assert(vpn_signals(*d) == g1 + g2 + g3 + g4 + g5 + g6 + g7);
    }

    let is_vpn_like: bool = score >= 5;
    VpnHeuristic { is_vpn_like, score, signals: sig }
}

/// Whether an interface passes the listing filters: name fragment,
/// up/down state, physical or virtual, and presence of IPv4 or IPv6
/// addresses.  Every given filter must hold.
pub open spec fn keeps(d: IfaceData, args: ListArgs) -> bool {
    &&& match args.name_like {
        Some(p) => contains_seq(d.name@, p@),
        None => true,
    }
    &&& (args.up ==> d.oper_state is Up)
    &&& (args.down ==> d.oper_state is Down)
    &&& (args.phy ==> d.is_physical)
    &&& (args.virt ==> !d.is_physical)
    &&& (args.ipv4 ==> d.ipv4@.len() > 0)
    &&& (args.ipv6 ==> d.ipv6@.len() > 0)
}

fn keeps_exec(d: &IfaceData, args: &ListArgs) -> (r: bool)
    ensures
        r == keeps(*d, *args),
{
    let name_ok: bool = match &args.name_like {
        Some(p) => contains_sub(d.name.as_str(), p.as_str()),
        None => true,
    };
    let up_ok: bool = !args.up || matches!(d.oper_state, OperState::Up);
    let down_ok: bool = !args.down || matches!(d.oper_state, OperState::Down);
    let phy_ok: bool = !args.phy || d.is_physical;
    let virt_ok: bool = !args.virt || !d.is_physical;
    let v4_ok: bool = !args.ipv4 || d.ipv4.len() > 0;
    let v6_ok: bool = !args.ipv6 || d.ipv6.len() > 0;
    name_ok && up_ok && down_ok && phy_ok && virt_ok && v4_ok && v6_ok
}

/// Applies the listing filters, keeping the original order.
pub fn list_filter(ifs: Vec<IfaceData>, args: &ListArgs) -> (r: Vec<IfaceData>)
    ensures
        r@ == ifs@.filter(|d: IfaceData| keeps(d, *args)),
{
    let ghost pred = |d: IfaceData| keeps(d, *args);
    let mut out: Vec<IfaceData> = Vec::new();
    let mut src = ifs;
    let ghost orig: Seq<IfaceData> = src@;
    proof {
        reveal(Seq::filter);
        assert(orig.take(0).filter(pred) =~= out@);
    }
    let ghost mut taken: int = 0;
    while src.len() > 0
        invariant
            0 <= taken,
            taken + src@.len() == orig.len(),
            src@ == orig.skip(taken),
            out@ == orig.take(taken).filter(pred),
            pred == (|d: IfaceData| keeps(d, *args)),
        decreases src@.len(),
    {
        let ghost src_pre: Seq<IfaceData> = src@;
        let x: IfaceData = src.remove(0);
        proof {
            assert(src_pre[0] == orig.skip(taken)[0]);
            assert(x == orig[taken]);
            assert(src_pre.remove(0) =~= src_pre.drop_first());
            assert(src@ =~= orig.skip(taken + 1));
        }
        let keep: bool = keeps_exec(&x, args);
        if keep {
            out.push(x);
        }
        proof {
            taken = taken + 1;
            reveal(Seq::filter);
            assert(orig.take(taken).drop_last() =~= orig.take(taken - 1));
            assert(orig.take(taken).last() == orig[taken - 1]);
        }
    }
    proof {
        assert(orig.take(orig.len() as int) =~= orig);
    }
    out
}

/// Keeps only the interfaces bearing exactly the given name: the
/// monitor's single-interface session filter.
pub fn filter_by_name(ifs: Vec<IfaceData>, name: &str) -> (r: Vec<IfaceData>)
    ensures
        r@ == ifs@.filter(|d: IfaceData| d.name@ == name@),
{
    let ghost pred = |d: IfaceData| d.name@ == name@;
    let mut out: Vec<IfaceData> = Vec::new();
    let mut src = ifs;
    let ghost orig: Seq<IfaceData> = src@;
    proof {
        reveal(Seq::filter);
        assert(orig.take(0).filter(pred) =~= out@);
    }
    let ghost mut taken: int = 0;
    while src.len() > 0
        invariant
            0 <= taken,
            taken + src@.len() == orig.len(),
            src@ == orig.skip(taken),
            out@ == orig.take(taken).filter(pred),
            pred == (|d: IfaceData| d.name@ == name@),
        decreases src@.len(),
    {
        let ghost src_pre: Seq<IfaceData> = src@;
        let x: IfaceData = src.remove(0);
        proof {
            assert(src_pre[0] == orig.skip(taken)[0]);
            assert(x == orig[taken]);
            assert(src_pre.remove(0) =~= src_pre.drop_first());
            assert(src@ =~= orig.skip(taken + 1));
        }
        let keep: bool = crate::text::eq_str(x.name.as_str(), name);
        if keep {
            out.push(x);
        }
        proof {
            taken = taken + 1;
            reveal(Seq::filter);
            assert(orig.take(taken).drop_last() =~= orig.take(taken - 1));
            assert(orig.take(taken).last() == orig[taken - 1]);
        }
    }
    proof {
        assert(orig.take(orig.len() as int) =~= orig);
    }
    out
}

/// Finds the first interface carrying the given directory index: how
/// the popup re-locates its anchor after a re-sort.
pub fn find_by_index(ifs: &Vec<IfaceData>, index: u32) -> (r: Option<usize>)
    ensures
        match r {
            Some(i) => i < ifs@.len() && ifs@[i as int].index == index && forall|j: int|
                0 <= j < i ==> ifs@[j].index != index,
            None => forall|j: int| 0 <= j < ifs@.len() ==> ifs@[j].index != index,
        },
{
    let n: usize = ifs.len();
    let mut i: usize = 0;
    while i < n
        invariant
            n == ifs@.len(),
            i <= n,
            forall|j: int| 0 <= j < i ==> ifs@[j].index != index,
        decreases n - i,
    {
        if ifs[i].index == index {
            return Some(i);
        }
        i = i + 1;
    }
    None
}

/// Finds the first interface carrying the given name.
pub fn find_by_name(ifs: &Vec<IfaceData>, name: &str) -> (r: Option<usize>)
    ensures
        match r {
            Some(i) => i < ifs@.len() && ifs@[i as int].name@ == name@ && forall|j: int|
                0 <= j < i ==> ifs@[j].name@ != name@,
            None => forall|j: int| 0 <= j < ifs@.len() ==> ifs@[j].name@ != name@,
        },
{
    let n: usize = ifs.len();
    let mut i: usize = 0;
    while i < n
        invariant
            n == ifs@.len(),
            i <= n,
            forall|j: int| 0 <= j < i ==> ifs@[j].name@ != name@,
        decreases n - i,
    {
        if crate::text::eq_str(ifs[i].name.as_str(), name) {
            return Some(i);
        }
        i = i + 1;
    }
    None
}

} // verus!
