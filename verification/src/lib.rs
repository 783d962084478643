//! Verified core of a network-interface inspection tool.
//!
//! The heart of the crate is the traffic monitor: a fixed-cadence sampler
//! that derives per-interface throughput from cumulative byte counters,
//! keeps a sortable row set, and tracks a selection and a detail overlay.
//! Around it stand the data model for interfaces, the renderers that lay
//! the data out as labelled trees, and small pure helpers for number and
//! unit formatting.

pub mod cli;
pub mod ifmodel;
pub mod monitor;
pub mod public;
pub mod rate;
pub mod rows;
pub mod snapshot;
pub mod sysinfo;
pub mod text;
pub mod treeview;
pub mod unitfmt;
