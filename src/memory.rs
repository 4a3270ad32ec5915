use vstd::prelude::*;

use crate::usage::{percent_ratio, usage_percent, Ratio};

verus! {

/// What the platform reports of main memory, in bytes.
#[derive(Clone, Copy, Debug, PartialEq, Eq, Structural)]
pub struct MemoryReading {
    pub total: u64,
    pub used: u64,
    pub available: u64,
}

/// The values written into the memory gauges on one pass.
#[derive(Clone, Copy, Debug, PartialEq, Eq, Structural)]
pub struct MemoryFigures {
    pub usage_percent: Ratio,
    pub total_bytes: u64,
    pub used_bytes: u64,
    pub available_bytes: u64,
}

pub fn memory_figures(m: MemoryReading) -> (r: MemoryFigures)
    ensures
        r.usage_percent == percent_ratio(m.used as int, m.total as int),
        r.usage_percent.wf(),
        m.total == 0 ==> r.usage_percent.num == 0,
        m.total > 0 ==> r.usage_percent.equals(100 * m.used, m.total as int),
        m.used <= m.total ==> r.usage_percent.num <= 100 * r.usage_percent.den,
        r.total_bytes == m.total,
        r.used_bytes == m.used,
        r.available_bytes == m.available,
{
    MemoryFigures {
        usage_percent: usage_percent(m.used, m.total),
        total_bytes: m.total,
        used_bytes: m.used,
        available_bytes: m.available,
    }
}

} // verus!
