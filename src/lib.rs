//! The computing core of a host-metrics exporter: the declarations of every metric
//! with their registration rules, the figures derived from each platform reading,
//! and the refresh scheduler's state machine.
use vstd::prelude::*;

pub mod catalog;
pub mod cpu;
pub mod disk;
pub mod memory;
pub mod network;
pub mod schedule;
pub mod standard;
pub mod usage;

verus! {

} // verus!
