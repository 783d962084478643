//! System information as the library models it, and the small pure
//! rules around it: which proxy environment value wins, and the host
//! name lookup.

use vstd::prelude::*;

use crate::text::{is_blank, spec_is_blank};

verus! {

/// Proxy settings read from the environment.
#[derive(Debug, Clone)]
pub struct ProxyEnv {
    pub http: Option<String>,
    pub https: Option<String>,
    pub all: Option<String>,
    pub no_proxy: Option<String>,
}

/// Host and operating-system description.
#[derive(Debug, Clone)]
pub struct SysInfo {
    pub hostname: String,
    pub os_type: String,
    pub os_version: String,
    pub edition: String,
    pub codename: String,
    pub bitness: String,
    pub architecture: String,
    pub proxy: ProxyEnv,
}

/// Which of the two spellings of a proxy variable wins: the lowercase
/// value when it is set and not blank, else the uppercase value when it
/// is set and not blank, else nothing.
pub open spec fn spec_pick_proxy(lower: Option<Seq<char>>, upper: Option<Seq<char>>) -> Option<
    Seq<char>,
> {
    match lower {
        Some(l) => if !spec_is_blank(l) {
            Some(l)
        } else {
            match upper {
                Some(u) => if !spec_is_blank(u) {
                    Some(u)
                } else {
                    None
                },
                None => None,
            }
        },
        None => match upper {
            Some(u) => if !spec_is_blank(u) {
                Some(u)
            } else {
                None
            },
            None => None,
        },
    }
}

/// Chooses between the lowercase and uppercase readings of one proxy
/// variable: lowercase preferred, entirely-whitespace values dropped.
pub fn pick_proxy(lower: Option<String>, upper: Option<String>) -> (r: Option<String>)
    ensures
        (match r {
            Some(s) => Some(s@),
            None => None,
        }) == spec_pick_proxy(
            match lower {
                Some(l) => Some(l@),
                None => None,
            },
            match upper {
                Some(u) => Some(u@),
                None => None,
            },
        ),
{
    match lower {
        Some(l) => {
            if !is_blank(l.as_str()) {
                Some(l)
            } else {
                match upper {
                    Some(u) => {
                        if !is_blank(u.as_str()) {
                            Some(u)
                        } else {
                            None
                        }
                    },
                    None => None,
                }
            }
        },
        None => match upper {
            Some(u) => {
                if !is_blank(u.as_str()) {
                    Some(u)
                } else {
                    None
                }
            },
            None => None,
        },
    }
}

/// Relies on `hostname::get`: the machine's host name, when it can be
/// read and is valid Unicode.  The result depends on the machine, so
/// nothing is promised of it.
#[verifier::external_body]
fn hostname_lookup() -> (r: Option<String>) {
    hostname::get().ok().and_then(|os| os.into_string().ok())
}

/// The machine's host name, or `unknown` when it cannot be read.
pub fn hostname() -> (r: String) {
    match hostname_lookup() {
        Some(h) => h,
        None => String::from_str("unknown"),
    }
}

} // verus!
