//! The recognized command-line surface, as plain data.  The binary
//! around the library parses the real arguments and converts them into
//! these structures; the library's logic reads them.

use vstd::prelude::*;

use crate::rows::SortKey;
use crate::unitfmt::Unit;

verus! {

/// How a command renders its output.
#[derive(Clone, Copy, Debug, PartialEq, Eq, Structural)]
pub enum OutputFormat {
    Tree,
    Json,
    Yaml,
}

/// Top-level options.
#[derive(Debug)]
pub struct Cli {
    /// Show only the default interface.
    pub default: bool,
    /// Output format.
    pub format: OutputFormat,
    /// With vendor info.
    pub with_vendor: bool,
    /// Subcommand.
    pub command: Option<Command>,
}

/// The subcommands.
#[derive(Debug)]
pub enum Command {
    /// Show all interfaces.
    List(ListArgs),
    /// Show details for one interface.
    Show(ShowArgs),
    /// Monitor traffic statistics.
    Monitor(MonitorArgs),
    /// Show OS and network-stack information.
    Os,
    /// Export a snapshot.
    Export(ExportArgs),
    /// Show public IP information.
    Public(PublicArgs),
}

/// Filters for the interface listing.
#[derive(Debug)]
pub struct ListArgs {
    /// Keep interfaces whose name contains this text.
    pub name_like: Option<String>,
    /// Keep interfaces that are operationally up.
    pub up: bool,
    /// Keep interfaces that are operationally down.
    pub down: bool,
    /// Keep physical interfaces.
    pub phy: bool,
    /// Keep virtual interfaces.
    pub virt: bool,
    /// Keep interfaces with an IPv4 address.
    pub ipv4: bool,
    /// Keep interfaces with an IPv6 address.
    pub ipv6: bool,
}

/// The interface whose details are shown.
#[derive(Debug)]
pub struct ShowArgs {
    pub iface: String,
}

/// Session configuration of the monitor.
#[derive(Debug)]
pub struct MonitorArgs {
    /// Restrict the session to one interface.
    pub iface: Option<String>,
    /// Initial sort key.
    pub sort: SortKey,
    /// Tick interval in whole seconds.
    pub interval: u64,
    /// Display unit.
    pub unit: Unit,
}

/// Where the exported snapshot goes.
#[derive(Debug)]
pub struct ExportArgs {
    /// Output file; standard output when absent.
    pub output: Option<String>,
}

/// Options of the public-IP lookup.
#[derive(Debug)]
pub struct PublicArgs {
    /// IPv4 only.
    pub ipv4: bool,
    /// Timeout in seconds.
    pub timeout: u64,
}

} // verus!
