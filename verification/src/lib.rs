//! Host telemetry engine: samples of OS resource counters are normalized into
//! snapshots, cumulative counters are turned into instantaneous rates, raw
//! sensor labels are classified into canonical categories, a bounded rolling
//! history is kept per metric, and debounced threshold alerts are raised.

pub mod alert;
pub mod config;
pub mod history;
pub mod model;
pub mod monitor;
pub mod text;

use vstd::prelude::*;

verus! {

/// An integer clipped to the range of `u64`.
pub open spec fn sat_u64(x: int) -> u64 {
    if x > u64::MAX as int {
        u64::MAX
    } else if x < 0 {
        0
    } else {
        x as u64
    }
}

/// A usage percentage in hundredths of a percent: `used / total * 100`,
/// truncated, and 0 when the total is 0.
pub open spec fn spec_usage_percent(used: u64, total: u64) -> u64 {
    if total == 0 {
        0
    } else {
        sat_u64((used * 10000) / (total as int))
    }
}

/// Computes a usage percentage (in hundredths of a percent) from a used and a
/// total quantity, yielding 0 when the total is 0 rather than dividing by zero.
pub fn usage_centi_percent(used: u64, total: u64) -> (r: u64)
    ensures
        r == spec_usage_percent(used, total),
{
    if total == 0 {
        0
    } else {
        let q: u128 = (used as u128) * 10000 / (total as u128);
        if q > u64::MAX as u128 {
            u64::MAX
        } else {
            q as u64
        }
    }
}

/// Law: when no more is used than there is, a usage percentage never exceeds
/// 100% — the bound comes from the arithmetic itself, not from a clamp.
pub proof fn lemma_usage_percent_bounded(used: u64, total: u64)
    requires
        used <= total,
    ensures
        spec_usage_percent(used, total) <= 10000,
{
    if total > 0 {
        assert(used * 10000 <= total * 10000) by (nonlinear_arith)
            requires
                used <= total,
        ;
        vstd::arithmetic::div_mod::lemma_div_is_ordered(
            used * 10000,
            total * 10000,
            total as int,
        );
        vstd::arithmetic::div_mod::lemma_div_by_multiple(10000, total as int);
    }
}

} // verus!
