//! Processor collector: normalizes the per-core usage readings of one cycle
//! into a `CpuStats` fragment.

use vstd::prelude::*;

use crate::model::{CpuStats, CpuStatsV};

verus! {

/// The fragment a processor collection yields: the readings as handed in,
/// with the core count taken from the per-core list.
pub open spec fn spec_cpu_stats(global_usage: u64, per_core_usage: Seq<u64>) -> CpuStatsV {
    CpuStatsV { global_usage, per_core_usage, core_count: per_core_usage.len() as usize }
}

/// Builds the processor fragment of a snapshot from the overall usage and the
/// per-core usages (both in hundredths of a percent).
pub fn collect(global_usage: u64, per_core_usage: Vec<u64>) -> (r: CpuStats)
    ensures
        r@ == spec_cpu_stats(global_usage, per_core_usage@),
{
    let core_count = per_core_usage.len();
    CpuStats { global_usage, per_core_usage, core_count }
}

} // verus!
