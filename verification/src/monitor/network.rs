//! Network collector: sums the cumulative per-interface counters and derives
//! the instantaneous rates from the previous cycle's totals.
//!
//! Cumulative counters are assumed monotone within a boot session, but a
//! counter reset must not produce a negative rate: the difference saturates
//! at zero. The elapsed time is floored at 100 milliseconds so that very fast
//! or clock-anomalous cycles cannot blow the rate up.

use vstd::prelude::*;

use crate::model::NetworkStats;
use crate::sat_u64;

verus! {

/// Sum of the received-byte counters of every interface.
pub open spec fn sum_rx(totals: Seq<(u64, u64)>) -> int
    decreases totals.len(),
{
    if totals.len() == 0 {
        0
    } else {
        sum_rx(totals.drop_last()) + totals.last().0
    }
}

/// Sum of the transmitted-byte counters of every interface.
pub open spec fn sum_tx(totals: Seq<(u64, u64)>) -> int
    decreases totals.len(),
{
    if totals.len() == 0 {
        0
    } else {
        sum_tx(totals.drop_last()) + totals.last().1
    }
}

/// The growth of a cumulative counter since the previous cycle, saturated at
/// zero: a counter that went backwards (a reset) counts as no traffic, never
/// as negative traffic.
pub open spec fn counter_delta(current: u64, previous: u64) -> u64 {
    if current >= previous {
        (current - previous) as u64
    } else {
        0
    }
}

/// The elapsed milliseconds used for rate derivation, floored at 100.
pub open spec fn floored_elapsed(elapsed_millis: u64) -> u64 {
    if elapsed_millis < 100 {
        100
    } else {
        elapsed_millis
    }
}

/// Bytes per second derived from a byte delta over an elapsed time.
pub open spec fn spec_rate(delta: u64, elapsed_millis: u64) -> u64 {
    sat_u64((delta * 1000) / (floored_elapsed(elapsed_millis) as int))
}

/// The fragment a network collection yields, together with the new
/// previous-cycle counters.
pub open spec fn spec_network_stats(
    totals: Seq<(u64, u64)>,
    prev_rx: u64,
    prev_tx: u64,
    elapsed_millis: u64,
) -> NetworkStats {
    let rx = sat_u64(sum_rx(totals));
    let tx = sat_u64(sum_tx(totals));
    NetworkStats {
        total_received_bytes: rx,
        total_transmitted_bytes: tx,
        received_per_sec: spec_rate(counter_delta(rx, prev_rx), elapsed_millis),
        transmitted_per_sec: spec_rate(counter_delta(tx, prev_tx), elapsed_millis),
    }
}

/// Law: a cumulative counter that decreased between cycles (a reset) yields a
/// rate of exactly zero — the difference saturates rather than underflowing,
/// so a rate can never be negative.
pub proof fn lemma_counter_reset_rate_zero(current: u64, previous: u64, elapsed_millis: u64)
    requires
        current < previous,
    ensures
        counter_delta(current, previous) == 0,
        spec_rate(counter_delta(current, previous), elapsed_millis) == 0,
{
    vstd::arithmetic::div_mod::lemma_basic_div(0, floored_elapsed(elapsed_millis) as int);
}

/// Sums the cumulative `(received, transmitted)` counters over all
/// interfaces, saturating at the largest representable value.
pub fn total_bytes(totals: &Vec<(u64, u64)>) -> (r: (u64, u64))
    ensures
        r.0 == sat_u64(sum_rx(totals@)),
        r.1 == sat_u64(sum_tx(totals@)),
{
    let n = totals.len();
    let mut rx: u64 = 0;
    let mut tx: u64 = 0;
    let mut i: usize = 0;
    while i < n
        invariant
            n == totals@.len(),
            i <= n,
            sum_rx(totals@.take(i as int)) >= 0,
            sum_tx(totals@.take(i as int)) >= 0,
            rx == sat_u64(sum_rx(totals@.take(i as int))),
            tx == sat_u64(sum_tx(totals@.take(i as int))),
        decreases n - i,
    {
        let (r, t) = totals[i];
        rx = if rx <= u64::MAX - r {
            rx + r
        } else {
            u64::MAX
        };
        tx = if tx <= u64::MAX - t {
            tx + t
        } else {
            u64::MAX
        };
        i = i + 1;
        proof {
            assert(totals@.take(i as int).drop_last() =~= totals@.take(i - 1));
            assert(totals@.take(i as int).last() == totals@[i - 1]);
        }
    }
    proof {
        assert(totals@.take(n as int) =~= totals@);
    }
    (rx, tx)
}

fn rate_per_sec(delta: u64, elapsed_millis: u64) -> (r: u64)
    ensures
        r == spec_rate(delta, elapsed_millis),
{
    let e: u64 = if elapsed_millis < 100 {
        100
    } else {
        elapsed_millis
    };
    let q: u128 = (delta as u128) * 1000 / (e as u128);
    if q > u64::MAX as u128 {
        u64::MAX
    } else {
        q as u64
    }
}

/// Builds the network fragment of a snapshot from the per-interface
/// cumulative counters, the previous cycle's summed counters, and the elapsed
/// milliseconds since that cycle. Also returns the new summed counters, which
/// become the next cycle's previous values. The derived rate can never be
/// negative: a counter that went backwards yields a rate of 0.
pub fn collect(totals: &Vec<(u64, u64)>, prev_rx: u64, prev_tx: u64, elapsed_millis: u64) -> (r: (
    NetworkStats,
    u64,
    u64,
))
    ensures
        r.0 == spec_network_stats(totals@, prev_rx, prev_tx, elapsed_millis),
        r.1 == r.0.total_received_bytes,
        r.2 == r.0.total_transmitted_bytes,
{
    let (rx, tx) = total_bytes(totals);
    let delta_rx = if rx >= prev_rx {
        rx - prev_rx
    } else {
        0
    };
    let delta_tx = if tx >= prev_tx {
        tx - prev_tx
    } else {
        0
    };
    let stats = NetworkStats {
        total_received_bytes: rx,
        total_transmitted_bytes: tx,
        received_per_sec: rate_per_sec(delta_rx, elapsed_millis),
        transmitted_per_sec: rate_per_sec(delta_tx, elapsed_millis),
    };
    (stats, rx, tx)
}

} // verus!
