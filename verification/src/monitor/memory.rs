//! Memory collector: normalizes the memory counters of one cycle into a
//! `MemoryStats` fragment, deriving the usage percentage.

use vstd::prelude::*;

use crate::model::MemoryStats;
use crate::spec_usage_percent;
use crate::usage_centi_percent;

verus! {

/// The fragment a memory collection yields: the counters as handed in, with
/// the usage percentage derived from used and total (0 when total is 0).
pub open spec fn spec_memory_stats(
    total: u64,
    used: u64,
    available: u64,
    swap_total: u64,
    swap_used: u64,
) -> MemoryStats {
    MemoryStats {
        total_bytes: total,
        used_bytes: used,
        available_bytes: available,
        swap_total_bytes: swap_total,
        swap_used_bytes: swap_used,
        usage_percent: spec_usage_percent(used, total),
    }
}

/// Builds the memory fragment of a snapshot from the raw byte counters.
pub fn collect(total: u64, used: u64, available: u64, swap_total: u64, swap_used: u64) -> (r:
    MemoryStats)
    ensures
        r == spec_memory_stats(total, used, available, swap_total, swap_used),
{
    let usage_percent = usage_centi_percent(used, total);
    MemoryStats {
        total_bytes: total,
        used_bytes: used,
        available_bytes: available,
        swap_total_bytes: swap_total,
        swap_used_bytes: swap_used,
        usage_percent,
    }
}

} // verus!
