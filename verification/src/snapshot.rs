//! A one-shot snapshot of the system and all its interfaces, as the
//! export command assembles it.

use vstd::prelude::*;

use crate::ifmodel::IfaceData;
use crate::sysinfo::SysInfo;

verus! {

/// System description plus every enumerated interface.
#[derive(Debug)]
pub struct Snapshot {
    pub sys: SysInfo,
    pub interfaces: Vec<IfaceData>,
}

} // verus!
