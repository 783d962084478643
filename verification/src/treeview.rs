//! Tree-shaped renderings of interfaces and system information.  The
//! drawing of branch glyphs is `termtree`'s; this module decides, and
//! proves, exactly which labelled nodes stand in each tree, at which
//! depth, and in which order.

use vstd::prelude::*;

use crate::ifmodel::{
    GatewayInfo, IfaceData, fmt_if_type, fmt_ip, fmt_mac, fmt_oper_state, fmt_v4net,
    if_type_label, ip_label, mac_label, oper_state_label, v4net_label, V4Net, IpPlain,
};
use crate::sysinfo::SysInfo;
use crate::text::{dec_of, fmt_u64};
use crate::unitfmt::{bps_label_of, flags_label_of, fmt_bps, fmt_flags};

verus! {

#[verifier::external_type_specification]
#[verifier::external_body]
#[verifier::reject_recursive_types(D)]
pub struct ExTree<D: core::fmt::Display>(termtree::Tree<D>);

/// The pre-order listing of a tree's nodes: each node's depth below
/// the root, and its label's characters.
pub uninterp spec fn tree_nodes(t: termtree::Tree<String>) -> Seq<(nat, Seq<char>)>;

/// What `termtree`'s rendering produces for a tree with the given
/// node listing, under the default glyphs.
pub uninterp spec fn render_of(nodes: Seq<(nat, Seq<char>)>) -> Seq<char>;

/// A node listing moved one level deeper, as pushing it under a new
/// parent does.
pub open spec fn shift_nodes(nodes: Seq<(nat, Seq<char>)>) -> Seq<(nat, Seq<char>)> {
    nodes.map_values(|n: (nat, Seq<char>)| ((n.0 + 1) as nat, n.1))
}

/// Relies on `termtree::Tree::new`: a fresh tree holds its root label
/// alone, and keeps the default glyph and line configuration.
#[verifier::external_body]
fn tree_new(label: String) -> (t: termtree::Tree<String>)
    ensures
        tree_nodes(t) == seq![(0nat, label@)],
{
    termtree::Tree::new(label)
}

/// Relies on `termtree::Tree::push`: the pushed tree becomes the last
/// child, so in pre-order its nodes follow the existing ones, one
/// level deeper.
#[verifier::external_body]
fn tree_push(t: &mut termtree::Tree<String>, child: termtree::Tree<String>)
    ensures
        tree_nodes(*final(t)) == tree_nodes(*old(t)) + shift_nodes(tree_nodes(child)),
{
    t.push(child);
}

/// Relies on `termtree`'s `Display` implementation: with the default
/// glyphs — the only configuration this module ever builds, see
/// `tree_new` — the rendering is a function of the node listing alone,
/// one line per node.
#[verifier::external_body]
fn tree_render(t: &termtree::Tree<String>) -> (r: String)
    ensures
        r@ == render_of(tree_nodes(*t)),
{
    format!("{}", t)
}

/// Converts a string into a tree label.
pub fn tree_label(s: String) -> (r: String)
    ensures
        r@ == s@,
{
    s
}

fn label_str(prefix: &'static str, s: &str) -> (r: String)
    ensures
        r@ == prefix@ + s@,
{
    let mut t = String::from_str(prefix);
    t.append(s);
    t
}

fn label_u64(prefix: &'static str, v: u64) -> (r: String)
    ensures
        r@ == prefix@ + dec_of(v as nat),
{
    let mut t = String::from_str(prefix);
    t.append(fmt_u64(v).as_str());
    t
}

/// Appends one leaf under the root of `t`.
fn push_leaf(t: &mut termtree::Tree<String>, label: String)
    ensures
        tree_nodes(*final(t)) == tree_nodes(*old(t)) + seq![(1nat, label@)],
{
    let ghost l: Seq<char> = label@;
    let child = tree_new(label);
    tree_push(t, child);
    proof {
        assert(shift_nodes(seq![(0nat, l)]) =~= seq![(1nat, l)]);
    }
}

/// The index line of an interface.
pub open spec fn sect_index(d: IfaceData) -> Seq<(nat, Seq<char>)> {
    seq![(1nat, "Index: "@ + dec_of(d.index as nat))]
}

/// The friendly-name line, when the interface has one.
pub open spec fn sect_friendly(d: IfaceData) -> Seq<(nat, Seq<char>)> {
    match d.friendly_name {
        Some(f) => seq![(1nat, "Friendly Name: "@ + f@)],
        None => Seq::empty(),
    }
}

/// The description line, when the interface has one.
pub open spec fn sect_desc(d: IfaceData) -> Seq<(nat, Seq<char>)> {
    match d.description {
        Some(t) => seq![(1nat, "Description: "@ + t@)],
        None => Seq::empty(),
    }
}

/// The classification line.
pub open spec fn sect_type(d: IfaceData) -> Seq<(nat, Seq<char>)> {
    seq![(1nat, "Type: "@ + if_type_label(d.if_type))]
}

/// The operational-state line.
pub open spec fn sect_state(d: IfaceData) -> Seq<(nat, Seq<char>)> {
    seq![(1nat, "State: "@ + oper_state_label(d.oper_state))]
}

/// The MAC line, when the interface has a link-layer address.
pub open spec fn sect_mac(d: IfaceData) -> Seq<(nat, Seq<char>)> {
    match d.mac_addr {
        Some(m) => seq![(1nat, "MAC: "@ + mac_label(m))],
        None => Seq::empty(),
    }
}

/// The MTU line, when known.
pub open spec fn sect_mtu(d: IfaceData) -> Seq<(nat, Seq<char>)> {
    match d.mtu {
        Some(m) => seq![(1nat, "MTU: "@ + dec_of(m as nat))],
        None => Seq::empty(),
    }
}

/// The flags line.
pub open spec fn sect_flags(d: IfaceData) -> Seq<(nat, Seq<char>)> {
    seq![(1nat, "Flags: "@ + flags_label_of(d.flags))]
}

/// The link-speed subtree, rooted at its own branch node.
pub open spec fn speed_sub(d: IfaceData) -> Seq<(nat, Seq<char>)> {
    seq![(0nat, "Link Speed"@)] + (match d.transmit_speed {
        Some(t) => seq![(1nat, "TX: "@ + bps_label_of(t))],
        None => Seq::empty(),
    }) + (match d.receive_speed {
        Some(x) => seq![(1nat, "RX: "@ + bps_label_of(x))],
        None => Seq::empty(),
    })
}

/// The link-speed branch, when either direction's speed is known.
pub open spec fn sect_speed(d: IfaceData) -> Seq<(nat, Seq<char>)> {
    if d.transmit_speed is Some || d.receive_speed is Some {
        shift_nodes(speed_sub(d))
    } else {
        Seq::empty()
    }
}

/// A branch of plain addresses under a family label.
pub open spec fn ip_list_sub(label: Seq<char>, s: Seq<IpPlain>) -> Seq<(nat, Seq<char>)> {
    seq![(0nat, label)] + s.map_values(|ip: IpPlain| (1nat, ip_label(ip)))
}

/// The IPv4 subtree of an interface.
pub open spec fn v4_list_sub(d: IfaceData) -> Seq<(nat, Seq<char>)> {
    seq![(0nat, "IPv4"@)] + d.ipv4@.map_values(|n: V4Net| (1nat, v4net_label(n)))
}

/// The IPv4 branch, when any network is assigned.
pub open spec fn sect_ipv4(d: IfaceData) -> Seq<(nat, Seq<char>)> {
    if d.ipv4@.len() > 0 {
        shift_nodes(v4_list_sub(d))
    } else {
        Seq::empty()
    }
}

/// One IPv6 line: the network's text, with the scope id appended when
/// one is aligned with it.
pub open spec fn v6_item_label(d: IfaceData, i: int) -> Seq<char> {
    d.ipv6@[i].text@ + (if 0 <= i < d.ipv6_scope_ids@.len() {
        " (scope_id="@ + dec_of(d.ipv6_scope_ids@[i] as nat) + ")"@
    } else {
        Seq::empty()
    })
}

/// The IPv6 subtree of an interface.
pub open spec fn v6_list_sub(d: IfaceData) -> Seq<(nat, Seq<char>)> {
    seq![(0nat, "IPv6"@)] + Seq::new(d.ipv6@.len(), |i: int| (1nat, v6_item_label(d, i)))
}

/// The IPv6 branch, when any network is assigned.
pub open spec fn sect_ipv6(d: IfaceData) -> Seq<(nat, Seq<char>)> {
    if d.ipv6@.len() > 0 {
        shift_nodes(v6_list_sub(d))
    } else {
        Seq::empty()
    }
}

/// The DNS branch, when any nameserver is known.
pub open spec fn sect_dns(d: IfaceData) -> Seq<(nat, Seq<char>)> {
    if d.dns_servers@.len() > 0 {
        shift_nodes(ip_list_sub("DNS"@, d.dns_servers@))
    } else {
        Seq::empty()
    }
}

/// A gateway's own subtree.
pub open spec fn gw_sub(g: GatewayInfo) -> Seq<(nat, Seq<char>)> {
    seq![(0nat, "Gateway"@), (1nat, "MAC: "@ + mac_label(g.mac))] + (if g.ipv4@.len() > 0 {
        shift_nodes(ip_list_sub("IPv4"@, g.ipv4@))
    } else {
        Seq::empty()
    }) + (if g.ipv6@.len() > 0 {
        shift_nodes(ip_list_sub("IPv6"@, g.ipv6@))
    } else {
        Seq::empty()
    })
}

/// The gateway branch, when one is known.
pub open spec fn sect_gateway(d: IfaceData) -> Seq<(nat, Seq<char>)> {
    match d.gateway {
        Some(g) => shift_nodes(gw_sub(g)),
        None => Seq::empty(),
    }
}

/// The counter-snapshot subtree.
pub open spec fn stats_sub(rx: u64, tx: u64) -> Seq<(nat, Seq<char>)> {
    seq![
        (0nat, "Statistics (snapshot)"@),
        (1nat, "RX bytes: "@ + dec_of(rx as nat)),
        (1nat, "TX bytes: "@ + dec_of(tx as nat)),
    ]
}

/// The counter-snapshot branch, when counters were read.
pub open spec fn sect_stats(d: IfaceData) -> Seq<(nat, Seq<char>)> {
    match d.stats {
        Some(c) => shift_nodes(stats_sub(c.rx_bytes, c.tx_bytes)),
        None => Seq::empty(),
    }
}

fn push_index(t: &mut termtree::Tree<String>, d: &IfaceData)
    ensures
        tree_nodes(*final(t)) == tree_nodes(*old(t)) + sect_index(*d),
{
    push_leaf(t, label_u64("Index: ", d.index as u64));
    proof {
        assert(tree_nodes(*t) =~= tree_nodes(*old(t)) + sect_index(*d));
    }
}

fn push_friendly(t: &mut termtree::Tree<String>, d: &IfaceData)
    ensures
        tree_nodes(*final(t)) == tree_nodes(*old(t)) + sect_friendly(*d),
{
    match &d.friendly_name {
        Some(f) => {
            push_leaf(t, label_str("Friendly Name: ", f.as_str()));
        },
        None => {},
    }
    proof {
        assert(tree_nodes(*t) =~= tree_nodes(*old(t)) + sect_friendly(*d));
    }
}

fn push_desc(t: &mut termtree::Tree<String>, d: &IfaceData)
    ensures
        tree_nodes(*final(t)) == tree_nodes(*old(t)) + sect_desc(*d),
{
    match &d.description {
        Some(x) => {
            push_leaf(t, label_str("Description: ", x.as_str()));
        },
        None => {},
    }
    proof {
        assert(tree_nodes(*t) =~= tree_nodes(*old(t)) + sect_desc(*d));
    }
}

fn push_type(t: &mut termtree::Tree<String>, d: &IfaceData)
    ensures
        tree_nodes(*final(t)) == tree_nodes(*old(t)) + sect_type(*d),
{
    push_leaf(t, label_str("Type: ", fmt_if_type(&d.if_type).as_str()));
    proof {
        assert(tree_nodes(*t) =~= tree_nodes(*old(t)) + sect_type(*d));
    }
}

fn push_state(t: &mut termtree::Tree<String>, d: &IfaceData)
    ensures
        tree_nodes(*final(t)) == tree_nodes(*old(t)) + sect_state(*d),
{
    push_leaf(t, label_str("State: ", fmt_oper_state(&d.oper_state).as_str()));
    proof {
        assert(tree_nodes(*t) =~= tree_nodes(*old(t)) + sect_state(*d));
    }
}

fn push_mac(t: &mut termtree::Tree<String>, d: &IfaceData)
    ensures
        tree_nodes(*final(t)) == tree_nodes(*old(t)) + sect_mac(*d),
{
    match &d.mac_addr {
        Some(m) => {
            push_leaf(t, label_str("MAC: ", fmt_mac(m).as_str()));
        },
        None => {},
    }
    proof {
        assert(tree_nodes(*t) =~= tree_nodes(*old(t)) + sect_mac(*d));
    }
}

fn push_mtu(t: &mut termtree::Tree<String>, d: &IfaceData)
    ensures
        tree_nodes(*final(t)) == tree_nodes(*old(t)) + sect_mtu(*d),
{
    match d.mtu {
        Some(m) => {
            push_leaf(t, label_u64("MTU: ", m as u64));
        },
        None => {},
    }
    proof {
        assert(tree_nodes(*t) =~= tree_nodes(*old(t)) + sect_mtu(*d));
    }
}

fn push_flags(t: &mut termtree::Tree<String>, d: &IfaceData)
    ensures
        tree_nodes(*final(t)) == tree_nodes(*old(t)) + sect_flags(*d),
{
    push_leaf(t, label_str("Flags: ", fmt_flags(d.flags).as_str()));
    proof {
        assert(tree_nodes(*t) =~= tree_nodes(*old(t)) + sect_flags(*d));
    }
}

fn push_speed(t: &mut termtree::Tree<String>, d: &IfaceData)
    ensures
        tree_nodes(*final(t)) == tree_nodes(*old(t)) + sect_speed(*d),
{
    if d.transmit_speed.is_some() || d.receive_speed.is_some() {
        let mut sub = tree_new(String::from_str("Link Speed"));
        match d.transmit_speed {
            Some(x) => {
                push_leaf(&mut sub, label_str("TX: ", fmt_bps(x).as_str()));
            },
            None => {},
        }
        match d.receive_speed {
            Some(x) => {
                push_leaf(&mut sub, label_str("RX: ", fmt_bps(x).as_str()));
            },
            None => {},
        }
        proof {
            assert(tree_nodes(sub) =~= speed_sub(*d));
        }
        tree_push(t, sub);
    }
    proof {
        assert(tree_nodes(*t) =~= tree_nodes(*old(t)) + sect_speed(*d));
    }
}

fn push_ip_list(sub: &mut termtree::Tree<String>, items: &Vec<IpPlain>)
    ensures
        tree_nodes(*final(sub)) == tree_nodes(*old(sub)) + items@.map_values(
            |ip: IpPlain| (1nat, ip_label(ip)),
        ),
{
    let n: usize = items.len();
    let mut i: usize = 0;
    proof {
        assert(tree_nodes(*sub) =~= tree_nodes(*old(sub)) + items@.take(0).map_values(
            |ip: IpPlain| (1nat, ip_label(ip)),
        ));
    }
    while i < n
        invariant
            n == items@.len(),
            i <= n,
            tree_nodes(*sub) == tree_nodes(*old(sub)) + items@.take(i as int).map_values(
                |ip: IpPlain| (1nat, ip_label(ip)),
            ),
        decreases n - i,
    {
        push_leaf(sub, fmt_ip(&items[i]));
        i = i + 1;
        proof {
            assert(tree_nodes(*sub) =~= tree_nodes(*old(sub)) + items@.take(i as int).map_values(
                |ip: IpPlain| (1nat, ip_label(ip)),
            ));
        }
    }
    proof {
        assert(items@.take(n as int) =~= items@);
    }
}

fn push_ipv4(t: &mut termtree::Tree<String>, d: &IfaceData)
    ensures
        tree_nodes(*final(t)) == tree_nodes(*old(t)) + sect_ipv4(*d),
{
    if d.ipv4.len() > 0 {
        let mut sub = tree_new(String::from_str("IPv4"));
        let n: usize = d.ipv4.len();
        let mut i: usize = 0;
        proof {
            assert(tree_nodes(sub) =~= seq![(0nat, "IPv4"@)] + d.ipv4@.take(0).map_values(
                |x: V4Net| (1nat, v4net_label(x)),
            ));
        }
        while i < n
            invariant
                n == d.ipv4@.len(),
                i <= n,
                tree_nodes(sub) == seq![(0nat, "IPv4"@)] + d.ipv4@.take(i as int).map_values(
                    |x: V4Net| (1nat, v4net_label(x)),
                ),
            decreases n - i,
        {
            push_leaf(&mut sub, fmt_v4net(&d.ipv4[i]));
            i = i + 1;
            proof {
                assert(tree_nodes(sub) =~= seq![(0nat, "IPv4"@)] + d.ipv4@.take(
                    i as int,
                ).map_values(|x: V4Net| (1nat, v4net_label(x))));
            }
        }
        proof {
            assert(d.ipv4@.take(n as int) =~= d.ipv4@);
            assert(tree_nodes(sub) =~= v4_list_sub(*d));
        }
        tree_push(t, sub);
    }
    proof {
        assert(tree_nodes(*t) =~= tree_nodes(*old(t)) + sect_ipv4(*d));
    }
}

fn push_ipv6(t: &mut termtree::Tree<String>, d: &IfaceData)
    ensures
        tree_nodes(*final(t)) == tree_nodes(*old(t)) + sect_ipv6(*d),
{
    if d.ipv6.len() > 0 {
        let mut sub = tree_new(String::from_str("IPv6"));
        let n: usize = d.ipv6.len();
        let mut i: usize = 0;
        proof {
            assert(tree_nodes(sub) =~= seq![(0nat, "IPv6"@)] + Seq::new(
                0,
                |j: int| (1nat, v6_item_label(*d, j)),
            ));
        }
        while i < n
            invariant
                n == d.ipv6@.len(),
                i <= n,
                tree_nodes(sub) == seq![(0nat, "IPv6"@)] + Seq::new(
                    i as nat,
                    |j: int| (1nat, v6_item_label(*d, j)),
                ),
            decreases n - i,
        {
            let mut label: String = d.ipv6[i].text.clone();
            if i < d.ipv6_scope_ids.len() {
                label.append(" (scope_id=");
                label.append(fmt_u64(d.ipv6_scope_ids[i] as u64).as_str());
                label.append(")");
            }
            proof {
                assert(label@ =~= v6_item_label(*d, i as int));
            }
            push_leaf(&mut sub, label);
            i = i + 1;
            proof {
                assert(tree_nodes(sub) =~= seq![(0nat, "IPv6"@)] + Seq::new(
                    i as nat,
                    |j: int| (1nat, v6_item_label(*d, j)),
                ));
            }
        }
        proof {
            assert(tree_nodes(sub) =~= v6_list_sub(*d));
        }
        tree_push(t, sub);
    }
    proof {
        assert(tree_nodes(*t) =~= tree_nodes(*old(t)) + sect_ipv6(*d));
    }
}

fn push_dns(t: &mut termtree::Tree<String>, d: &IfaceData)
    ensures
        tree_nodes(*final(t)) == tree_nodes(*old(t)) + sect_dns(*d),
{
    if d.dns_servers.len() > 0 {
        let mut sub = tree_new(String::from_str("DNS"));
        push_ip_list(&mut sub, &d.dns_servers);
        proof {
            assert(tree_nodes(sub) =~= ip_list_sub("DNS"@, d.dns_servers@));
        }
        tree_push(t, sub);
    }
    proof {
        assert(tree_nodes(*t) =~= tree_nodes(*old(t)) + sect_dns(*d));
    }
}

fn push_gateway(t: &mut termtree::Tree<String>, d: &IfaceData)
    ensures
        tree_nodes(*final(t)) == tree_nodes(*old(t)) + sect_gateway(*d),
{
    match &d.gateway {
        Some(g) => {
            let mut sub = tree_new(String::from_str("Gateway"));
            push_leaf(&mut sub, label_str("MAC: ", fmt_mac(&g.mac).as_str()));
            if g.ipv4.len() > 0 {
                let mut sub4 = tree_new(String::from_str("IPv4"));
                push_ip_list(&mut sub4, &g.ipv4);
                proof {
                    assert(tree_nodes(sub4) =~= ip_list_sub("IPv4"@, g.ipv4@));
                }
                tree_push(&mut sub, sub4);
            }
            if g.ipv6.len() > 0 {
                let mut sub6 = tree_new(String::from_str("IPv6"));
                push_ip_list(&mut sub6, &g.ipv6);
                proof {
                    assert(tree_nodes(sub6) =~= ip_list_sub("IPv6"@, g.ipv6@));
                }
                tree_push(&mut sub, sub6);
            }
            proof {
                assert(tree_nodes(sub) =~= gw_sub(*g));
            }
            tree_push(t, sub);
        },
        None => {},
    }
    proof {
        assert(tree_nodes(*t) =~= tree_nodes(*old(t)) + sect_gateway(*d));
    }
}

fn push_stats(t: &mut termtree::Tree<String>, d: &IfaceData)
    ensures
        tree_nodes(*final(t)) == tree_nodes(*old(t)) + sect_stats(*d),
{
    match &d.stats {
        Some(c) => {
            let mut sub = tree_new(String::from_str("Statistics (snapshot)"));
            push_leaf(&mut sub, label_u64("RX bytes: ", c.rx_bytes));
            push_leaf(&mut sub, label_u64("TX bytes: ", c.tx_bytes));
            proof {
                assert(tree_nodes(sub) =~= stats_sub(c.rx_bytes, c.tx_bytes));
            }
            tree_push(t, sub);
        },
        None => {},
    }
    proof {
        assert(tree_nodes(*t) =~= tree_nodes(*old(t)) + sect_stats(*d));
    }
}

/// The title of an interface's detail tree.
pub open spec fn detail_title(d: IfaceData, host: Seq<char>) -> Seq<char> {
    d.name@ + (if d.default {
        " (default)"@
    } else {
        Seq::<char>::empty()
    }) + " on "@ + host
}

/// The full node listing of one interface's detail tree: the popup's
/// content, and the `show` command's tree rendering.
pub open spec fn detail_nodes(d: IfaceData, host: Seq<char>) -> Seq<(nat, Seq<char>)> {
    seq![(0nat, detail_title(d, host))] + sect_index(d) + sect_friendly(d) + sect_desc(d)
        + sect_type(d) + sect_state(d) + sect_mac(d) + sect_mtu(d) + sect_speed(d) + sect_flags(d)
        + sect_ipv4(d) + sect_ipv6(d) + sect_dns(d) + sect_gateway(d) + sect_stats(d)
}

/// Renders one interface's full attribute set as a tree: the text the
/// monitor's detail popup shows.
pub fn iface_to_text(d: &IfaceData, host: &str) -> (r: String)
    ensures
        r@ == render_of(detail_nodes(*d, host@)),
{
    let mut title: String = d.name.clone();
    if d.default {
        title.append(" (default)");
    }
    title.append(" on ");
    title.append(host);
    proof {
        assert(title@ =~= detail_title(*d, host@));
    }
    let mut root = tree_new(title);
    push_index(&mut root, d);
    push_friendly(&mut root, d);
    push_desc(&mut root, d);
    push_type(&mut root, d);
    push_state(&mut root, d);
    push_mac(&mut root, d);
    push_mtu(&mut root, d);
    push_speed(&mut root, d);
    push_flags(&mut root, d);
    push_ipv4(&mut root, d);
    push_ipv6(&mut root, d);
    push_dns(&mut root, d);
    push_gateway(&mut root, d);
    push_stats(&mut root, d);
    proof {
        assert(tree_nodes(root) =~= detail_nodes(*d, host@));
    }
    tree_render(&root)
}

/// The tree text of one interface's details.
pub fn print_interface_detail_tree(d: &IfaceData, host: &str) -> (r: String)
    ensures
        r@ == render_of(detail_nodes(*d, host@)),
{
    iface_to_text(d, host)
}

/// The tree text shown for one named interface.
pub fn show_interface(d: &IfaceData, host: &str) -> (r: String)
    ensures
        r@ == render_of(detail_nodes(*d, host@)),
{
    iface_to_text(d, host)
}

/// One interface's entry in the listing tree.
pub open spec fn list_entry_nodes(d: IfaceData) -> Seq<(nat, Seq<char>)> {
    seq![
        (0nat, d.name@ + (if d.default {
            " (default)"@
        } else {
            Seq::<char>::empty()
        })),
    ] + sect_index(d) + sect_friendly(d) + sect_desc(d) + sect_type(d) + sect_state(d) + sect_mac(
        d,
    ) + sect_mtu(d) + sect_ipv4(d) + sect_ipv6(d) + sect_dns(d) + sect_gateway(d)
}

/// The entries of the listing tree, in order.
pub open spec fn entries_nodes(s: Seq<IfaceData>) -> Seq<(nat, Seq<char>)>
    decreases s.len(),
{
    if s.len() == 0 {
        Seq::empty()
    } else {
        entries_nodes(s.drop_last()) + shift_nodes(list_entry_nodes(s.last()))
    }
}

/// The listing tree's title: the single default interface is announced
/// as such, anything else lists plainly.
pub open spec fn list_title(s: Seq<IfaceData>, host: Seq<char>) -> Seq<char> {
    if s.len() == 1 && s[0].default {
        "Default Interface on "@ + host
    } else {
        "Interfaces on "@ + host
    }
}

/// The full node listing of the interface listing tree.
pub open spec fn interfaces_nodes(s: Seq<IfaceData>, host: Seq<char>) -> Seq<(nat, Seq<char>)> {
    seq![(0nat, list_title(s, host))] + entries_nodes(s)
}

fn iface_entry_tree(d: &IfaceData) -> (t: termtree::Tree<String>)
    ensures
        tree_nodes(t) == list_entry_nodes(*d),
{
    let mut label: String = d.name.clone();
    if d.default {
        label.append(" (default)");
    }
    let mut node = tree_new(label);
    push_index(&mut node, d);
    push_friendly(&mut node, d);
    push_desc(&mut node, d);
    push_type(&mut node, d);
    push_state(&mut node, d);
    push_mac(&mut node, d);
    push_mtu(&mut node, d);
    push_ipv4(&mut node, d);
    push_ipv6(&mut node, d);
    push_dns(&mut node, d);
    push_gateway(&mut node, d);
    proof {
        assert(tree_nodes(node) =~= list_entry_nodes(*d));
    }
    node
}

/// The tree text listing the given interfaces.
pub fn print_interface_tree(ifaces: &Vec<IfaceData>, host: &str) -> (r: String)
    ensures
        r@ == render_of(interfaces_nodes(ifaces@, host@)),
{
    let single_default: bool = ifaces.len() == 1 && ifaces[0].default;
    let title: String = if single_default {
        label_str("Default Interface on ", host)
    } else {
        label_str("Interfaces on ", host)
    };
    proof {
        assert(title@ == list_title(ifaces@, host@));
    }
    let mut root = tree_new(title);
    let n: usize = ifaces.len();
    let mut i: usize = 0;
    proof {
        assert(entries_nodes(ifaces@.take(0)) =~= Seq::<(nat, Seq<char>)>::empty());
        assert(tree_nodes(root) =~= seq![(0nat, list_title(ifaces@, host@))] + entries_nodes(
            ifaces@.take(0),
        ));
    }
    while i < n
        invariant
            n == ifaces@.len(),
            i <= n,
            tree_nodes(root) == seq![(0nat, list_title(ifaces@, host@))] + entries_nodes(
                ifaces@.take(i as int),
            ),
        decreases n - i,
    {
        let entry = iface_entry_tree(&ifaces[i]);
        tree_push(&mut root, entry);
        i = i + 1;
        proof {
            assert(ifaces@.take(i as int).drop_last() =~= ifaces@.take(i as int - 1));
            assert(ifaces@.take(i as int).last() == ifaces@[i as int - 1]);
            assert(tree_nodes(root) =~= seq![(0nat, list_title(ifaces@, host@))] + entries_nodes(
                ifaces@.take(i as int),
            ));
        }
    }
    proof {
        assert(ifaces@.take(n as int) =~= ifaces@);
    }
    tree_render(&root)
}

/// The system branch of the system-information tree.
pub open spec fn sys_sub(sys: SysInfo) -> Seq<(nat, Seq<char>)> {
    seq![
        (0nat, "System"@),
        (1nat, "OS Type: "@ + sys.os_type@),
        (1nat, "Version: "@ + sys.os_version@),
        (1nat, "Edition: "@ + sys.edition@),
        (1nat, "Codename: "@ + sys.codename@),
        (1nat, "Bitness: "@ + sys.bitness@),
        (1nat, "Architecture: "@ + sys.architecture@),
    ]
}

/// The default interface's branch of the system-information tree.
pub open spec fn sysiface_sub(d: IfaceData) -> Seq<(nat, Seq<char>)> {
    seq![(0nat, "Default Interface: "@ + d.name@)] + sect_friendly(d) + sect_desc(d) + sect_index(
        d,
    ) + sect_type(d) + sect_state(d) + sect_mac(d) + sect_mtu(d) + sect_speed(d) + sect_ipv4(d)
        + sect_ipv6(d) + sect_dns(d) + sect_gateway(d)
}

/// The full node listing of the system-information tree.
pub open spec fn system_nodes(sys: SysInfo, dflt: Option<IfaceData>) -> Seq<(nat, Seq<char>)> {
    seq![(0nat, "System Information on "@ + sys.hostname@)] + shift_nodes(sys_sub(sys)) + (
    match dflt {
        Some(d) => shift_nodes(sysiface_sub(d)),
        None => seq![(1nat, "Default Interface: (not found)"@)],
    })
}

/// The tree text of the system information and, when known, the
/// default interface.
pub fn print_system_with_default_iface(sys: &SysInfo, default_iface: &Option<IfaceData>) -> (r:
    String)
    ensures
        r@ == render_of(system_nodes(*sys, *default_iface)),
{
    let mut root = tree_new(label_str("System Information on ", sys.hostname.as_str()));
    let mut sysnode = tree_new(String::from_str("System"));
    push_leaf(&mut sysnode, label_str("OS Type: ", sys.os_type.as_str()));
    push_leaf(&mut sysnode, label_str("Version: ", sys.os_version.as_str()));
    push_leaf(&mut sysnode, label_str("Edition: ", sys.edition.as_str()));
    push_leaf(&mut sysnode, label_str("Codename: ", sys.codename.as_str()));
    push_leaf(&mut sysnode, label_str("Bitness: ", sys.bitness.as_str()));
    push_leaf(&mut sysnode, label_str("Architecture: ", sys.architecture.as_str()));
    proof {
        assert(tree_nodes(sysnode) =~= sys_sub(*sys));
    }
    tree_push(&mut root, sysnode);
    match default_iface {
        Some(d) => {
            let mut node = tree_new(label_str("Default Interface: ", d.name.as_str()));
            push_friendly(&mut node, d);
            push_desc(&mut node, d);
            push_index(&mut node, d);
            push_type(&mut node, d);
            push_state(&mut node, d);
            push_mac(&mut node, d);
            push_mtu(&mut node, d);
            push_speed(&mut node, d);
            push_ipv4(&mut node, d);
            push_ipv6(&mut node, d);
            push_dns(&mut node, d);
            push_gateway(&mut node, d);
            proof {
                assert(tree_nodes(node) =~= sysiface_sub(*d));
            }
            tree_push(&mut root, node);
        },
        None => {
            push_leaf(&mut root, String::from_str("Default Interface: (not found)"));
        },
    }
    proof {
        assert(tree_nodes(root) =~= system_nodes(*sys, *default_iface));
    }
    tree_render(&root)
}

/// The tree text of the system and network-stack overview.
pub fn show_system_net_stack(sys: &SysInfo, default_iface: &Option<IfaceData>) -> (r: String)
    ensures
        r@ == render_of(system_nodes(*sys, *default_iface)),
{
    print_system_with_default_iface(sys, default_iface)
}

} // verus!
