//! The public-IP report: what one lookup endpoint returns for one
//! address family, and the merge of the IPv4 and IPv6 answers into a
//! single report that factors out the fields both sides share.

use vstd::prelude::*;

verus! {

/// One answer of the public-IP lookup service.
#[derive(Debug)]
pub struct IpInfo {
    pub ip_version: String,
    pub ip_addr_dec: String,
    pub ip_addr: String,
    pub host_name: String,
    pub network: String,
    pub asn: String,
    pub as_name: String,
    pub country_code: String,
    pub country_name: String,
}

/// The mathematical image of an answer.
pub ghost struct IpInfoModel {
    pub ip_version: Seq<char>,
    pub ip_addr_dec: Seq<char>,
    pub ip_addr: Seq<char>,
    pub host_name: Seq<char>,
    pub network: Seq<char>,
    pub asn: Seq<char>,
    pub as_name: Seq<char>,
    pub country_code: Seq<char>,
    pub country_name: Seq<char>,
}

impl View for IpInfo {
    type V = IpInfoModel;

    open spec fn view(&self) -> IpInfoModel {
        IpInfoModel {
            ip_version: self.ip_version@,
            ip_addr_dec: self.ip_addr_dec@,
            ip_addr: self.ip_addr@,
            host_name: self.host_name@,
            network: self.network@,
            asn: self.asn@,
            as_name: self.as_name@,
            country_code: self.country_code@,
            country_name: self.country_name@,
        }
    }
}

/// One address family's part of the report; the provider fields are
/// absent when they moved into the common part.
#[derive(Debug)]
pub struct IpSide {
    pub ip_addr: String,
    pub ip_addr_dec: String,
    pub host_name: String,
    pub network: String,
    pub asn: Option<String>,
    pub as_name: Option<String>,
    pub country_code: Option<String>,
    pub country_name: Option<String>,
}

/// The mathematical image of one side.
pub ghost struct IpSideModel {
    pub ip_addr: Seq<char>,
    pub ip_addr_dec: Seq<char>,
    pub host_name: Seq<char>,
    pub network: Seq<char>,
    pub asn: Option<Seq<char>>,
    pub as_name: Option<Seq<char>>,
    pub country_code: Option<Seq<char>>,
    pub country_name: Option<Seq<char>>,
}

impl View for IpSide {
    type V = IpSideModel;

    open spec fn view(&self) -> IpSideModel {
        IpSideModel {
            ip_addr: self.ip_addr@,
            ip_addr_dec: self.ip_addr_dec@,
            host_name: self.host_name@,
            network: self.network@,
            asn: match self.asn {
                Some(s) => Some(s@),
                None => None,
            },
            as_name: match self.as_name {
                Some(s) => Some(s@),
                None => None,
            },
            country_code: match self.country_code {
                Some(s) => Some(s@),
                None => None,
            },
            country_name: match self.country_name {
                Some(s) => Some(s@),
                None => None,
            },
        }
    }
}

/// The fields the two sides agreed on.
#[derive(Debug)]
pub struct CommonInfo {
    pub asn: String,
    pub as_name: String,
    pub country_code: String,
    pub country_name: String,
}

/// The mathematical image of the common part.
pub ghost struct CommonModel {
    pub asn: Seq<char>,
    pub as_name: Seq<char>,
    pub country_code: Seq<char>,
    pub country_name: Seq<char>,
}

impl View for CommonInfo {
    type V = CommonModel;

    open spec fn view(&self) -> CommonModel {
        CommonModel {
            asn: self.asn@,
            as_name: self.as_name@,
            country_code: self.country_code@,
            country_name: self.country_name@,
        }
    }
}

/// The merged public-IP report.
#[derive(Debug)]
pub struct PublicOut {
    pub common: Option<CommonInfo>,
    pub ipv4: Option<IpSide>,
    pub ipv6: Option<IpSide>,
}

/// The mathematical image of the report.
pub ghost struct PublicOutModel {
    pub common: Option<CommonModel>,
    pub ipv4: Option<IpSideModel>,
    pub ipv6: Option<IpSideModel>,
}

impl View for PublicOut {
    type V = PublicOutModel;

    open spec fn view(&self) -> PublicOutModel {
        PublicOutModel {
            common: match self.common {
                Some(c) => Some(c@),
                None => None,
            },
            ipv4: match self.ipv4 {
                Some(s) => Some(s@),
                None => None,
            },
            ipv6: match self.ipv6 {
                Some(s) => Some(s@),
                None => None,
            },
        }
    }
}

/// An answer describes an IPv6 address: it says so, or its address
/// text contains a colon.
pub open spec fn spec_is_ipv6(i: IpInfoModel) -> bool {
    i.ip_version == "v6"@ || crate::text::contains_seq(i.ip_addr, ":"@)
}

/// Whether one answer describes an IPv6 address.
pub fn is_ipv6(info: &IpInfo) -> (r: bool)
    ensures
        r == spec_is_ipv6(info@),
{
    crate::text::eq_str(info.ip_version.as_str(), "v6") || crate::text::contains_sub(
        info.ip_addr.as_str(),
        ":",
    )
}

/// Where the two endpoint answers belong: when the any-family answer
/// describes an IPv6 address it fills the v6 slot and the
/// IPv4-endpoint answer fills the v4 slot; when it describes an IPv4
/// address it takes the v4 slot itself; with no any-family answer the
/// IPv4-endpoint answer is all there is.
pub open spec fn spec_route_answers(any: Option<IpInfoModel>, v4: Option<IpInfoModel>) -> (
    Option<IpInfoModel>,
    Option<IpInfoModel>,
) {
    match any {
        Some(i) => if spec_is_ipv6(i) {
            (v4, Some(i))
        } else {
            (Some(i), None)
        },
        None => (v4, None),
    }
}

/// Routes the answers of the any-family and IPv4-only lookups into the
/// report's v4 and v6 slots.
pub fn route_answers(any: Option<IpInfo>, v4: Option<IpInfo>) -> (r: (
    Option<IpInfo>,
    Option<IpInfo>,
))
    ensures
        ({
            let routed = spec_route_answers(
                match any {
                    Some(a) => Some(a@),
                    None => None,
                },
                match v4 {
                    Some(b) => Some(b@),
                    None => None,
                },
            );
            &&& (match r.0 {
                Some(a) => Some(a@),
                None => None,
            }) == routed.0
            &&& (match r.1 {
                Some(b) => Some(b@),
                None => None,
            }) == routed.1
        }),
{
    match any {
        Some(info) => {
            if is_ipv6(&info) {
                (v4, Some(info))
            } else {
                (Some(info), None)
            }
        },
        None => (v4, None),
    }
}

/// A side carrying all its provider fields.
pub open spec fn side_full(i: IpInfoModel) -> IpSideModel {
    IpSideModel {
        ip_addr: i.ip_addr,
        ip_addr_dec: i.ip_addr_dec,
        host_name: i.host_name,
        network: i.network,
        asn: Some(i.asn),
        as_name: Some(i.as_name),
        country_code: Some(i.country_code),
        country_name: Some(i.country_name),
    }
}

/// A side whose provider fields moved into the common part.
pub open spec fn side_bare(i: IpInfoModel) -> IpSideModel {
    IpSideModel {
        ip_addr: i.ip_addr,
        ip_addr_dec: i.ip_addr_dec,
        host_name: i.host_name,
        network: i.network,
        asn: None,
        as_name: None,
        country_code: None,
        country_name: None,
    }
}

/// The two sides agree on provider and country.
pub open spec fn sides_agree(a: IpInfoModel, b: IpInfoModel) -> bool {
    a.asn == b.asn && a.as_name == b.as_name && a.country_code == b.country_code && a.country_name
        == b.country_name
}

/// The merged report: with both sides present and agreeing, the shared
/// fields stand once in the common part; with both present but
/// disagreeing, each side keeps its own; with at most one side, no
/// common part is formed.
pub open spec fn spec_build_public_out(
    v4: Option<IpInfoModel>,
    v6: Option<IpInfoModel>,
) -> PublicOutModel {
    if v4 is None || v6 is None {
        PublicOutModel {
            common: None,
            ipv4: match v4 {
                Some(a) => Some(side_full(a)),
                None => None,
            },
            ipv6: match v6 {
                Some(b) => Some(side_full(b)),
                None => None,
            },
        }
    } else {
        let a = v4.unwrap();
        let b = v6.unwrap();
        if sides_agree(a, b) {
            PublicOutModel {
                common: Some(
                    CommonModel {
                        asn: a.asn,
                        as_name: a.as_name,
                        country_code: a.country_code,
                        country_name: a.country_name,
                    },
                ),
                ipv4: Some(side_bare(a)),
                ipv6: Some(side_bare(b)),
            }
        } else {
            PublicOutModel { common: None, ipv4: Some(side_full(a)), ipv6: Some(side_full(b)) }
        }
    }
}

fn full_side(i: &IpInfo) -> (r: IpSide)
    ensures
        r@ == side_full(i@),
{
    IpSide {
        ip_addr: i.ip_addr.clone(),
        ip_addr_dec: i.ip_addr_dec.clone(),
        host_name: i.host_name.clone(),
        network: i.network.clone(),
        asn: Some(i.asn.clone()),
        as_name: Some(i.as_name.clone()),
        country_code: Some(i.country_code.clone()),
        country_name: Some(i.country_name.clone()),
    }
}

fn bare_side(i: &IpInfo) -> (r: IpSide)
    ensures
        r@ == side_bare(i@),
{
    IpSide {
        ip_addr: i.ip_addr.clone(),
        ip_addr_dec: i.ip_addr_dec.clone(),
        host_name: i.host_name.clone(),
        network: i.network.clone(),
        asn: None,
        as_name: None,
        country_code: None,
        country_name: None,
    }
}

/// Merges the IPv4 and IPv6 lookup answers into one report.
pub fn build_public_out(v4: Option<IpInfo>, v6: Option<IpInfo>) -> (r: PublicOut)
    ensures
        r@ == spec_build_public_out(
            match v4 {
                Some(a) => Some(a@),
                None => None,
            },
            match v6 {
                Some(b) => Some(b@),
                None => None,
            },
        ),
{
    if v4.is_none() || v6.is_none() {
        let ipv4: Option<IpSide> = match &v4 {
            Some(a) => Some(full_side(a)),
            None => None,
        };
        let ipv6: Option<IpSide> = match &v6 {
            Some(b) => Some(full_side(b)),
            None => None,
        };
        return PublicOut { common: None, ipv4, ipv6 };
    }
    let a: &IpInfo = v4.as_ref().unwrap();
    let b: &IpInfo = v6.as_ref().unwrap();

    let same_asn: bool = a.asn == b.asn;
    let same_as_name: bool = a.as_name == b.as_name;
    let same_cc: bool = a.country_code == b.country_code;
    let same_country: bool = a.country_name == b.country_name;

    if same_asn && same_as_name && same_cc && same_country {
        PublicOut {
            common: Some(
                CommonInfo {
                    asn: a.asn.clone(),
                    as_name: a.as_name.clone(),
                    country_code: a.country_code.clone(),
                    country_name: a.country_name.clone(),
                },
            ),
            ipv4: Some(bare_side(a)),
            ipv6: Some(bare_side(b)),
        }
    } else {
        PublicOut { common: None, ipv4: Some(full_side(a)), ipv6: Some(full_side(b)) }
    }
}

} // verus!
