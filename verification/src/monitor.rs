//! The poller and its collectors. One call of [`SystemMonitor::poll_from`]
//! turns the raw counters read from the operating system into a fully
//! populated snapshot, deriving the network rates from the previous cycle's
//! cumulative counters and the elapsed wall-clock time.

pub mod cpu;
pub mod disk;
pub mod memory;
pub mod network;
pub mod temperature;

use vstd::prelude::*;

use crate::model::{CpuStats, SystemStats, SystemStatsV, TemperatureStats};

verus! {

/// One volume as reported by the operating system, before the inclusion
/// policy is applied.
pub struct RawDisk {
    /// Device name.
    pub name: String,
    /// Mount point path.
    pub mount_point: String,
    pub total_bytes: u64,
    pub available_bytes: u64,
}

/// One hardware sensor as reported by the operating system: a vendor-specific
/// label and, when the sensor answered, a reading in thousandths of a degree
/// Celsius.
pub struct RawSensor {
    pub label: String,
    pub temp_milli_c: Option<i64>,
}

/// Everything one sampling cycle reads from the operating system, as plain
/// values. Usages are in hundredths of a percent, sizes in bytes, and the
/// network totals are cumulative `(received, transmitted)` pairs, one per
/// interface.
pub struct RawSnapshot {
    pub cpu_global_usage: u64,
    pub per_core_usage: Vec<u64>,
    pub mem_total_bytes: u64,
    pub mem_used_bytes: u64,
    pub mem_available_bytes: u64,
    pub swap_total_bytes: u64,
    pub swap_used_bytes: u64,
    pub disks: Vec<RawDisk>,
    pub net_totals: Vec<(u64, u64)>,
    pub sensors: Vec<RawSensor>,
}

/// Milliseconds from `earlier` to `now`, zero when the clock did not advance.
pub open spec fn elapsed_millis(earlier: u64, now: u64) -> u64 {
    if now >= earlier {
        (now - earlier) as u64
    } else {
        0
    }
}

/// The snapshot one sampling cycle derives from the raw readings, given the
/// previous cycle's summed network counters and poll instant.
pub open spec fn spec_poll(
    prev_net_rx: u64,
    prev_net_tx: u64,
    last_poll_millis: u64,
    raw: RawSnapshot,
    now_millis: u64,
) -> SystemStatsV {
    SystemStatsV {
        cpu: cpu::spec_cpu_stats(raw.cpu_global_usage, raw.per_core_usage@),
        memory: memory::spec_memory_stats(
            raw.mem_total_bytes,
            raw.mem_used_bytes,
            raw.mem_available_bytes,
            raw.swap_total_bytes,
            raw.swap_used_bytes,
        ),
        disks: disk::spec_disk_list(raw.disks@),
        network: network::spec_network_stats(
            raw.net_totals@,
            prev_net_rx,
            prev_net_tx,
            elapsed_millis(last_poll_millis, now_millis),
        ),
        temperature: temperature::classified(raw.sensors@),
        timestamp: now_millis,
    }
}

/// The poller: holds the previous cycle's summed network counters and poll
/// instant, the only state one sampling cycle hands to the next.
pub struct SystemMonitor {
    pub prev_net_rx: u64,
    pub prev_net_tx: u64,
    pub last_poll_millis: u64,
}

impl SystemMonitor {
    /// A poller primed with the current cumulative network counters, so that
    /// the first cycle's rates measure growth since construction rather than
    /// since boot.
    pub fn new(initial_net_totals: &Vec<(u64, u64)>, now_millis: u64) -> (r: SystemMonitor)
        ensures
            r.prev_net_rx == crate::sat_u64(network::sum_rx(initial_net_totals@)),
            r.prev_net_tx == crate::sat_u64(network::sum_tx(initial_net_totals@)),
            r.last_poll_millis == now_millis,
    {
        let (rx, tx) = network::total_bytes(initial_net_totals);
        SystemMonitor { prev_net_rx: rx, prev_net_tx: tx, last_poll_millis: now_millis }
    }

    /// One sampling cycle: assembles the unified snapshot from the raw
    /// readings, advances the previous-counter state for the next cycle's
    /// rate derivation, and records the poll instant. Always returns a fully
    /// populated snapshot; empty raw inputs yield empty or zeroed fields, not
    /// missing ones.
    pub fn poll_from(&mut self, raw: &RawSnapshot, now_millis: u64) -> (r: SystemStats)
        ensures
            r@ == spec_poll(
                old(self).prev_net_rx,
                old(self).prev_net_tx,
                old(self).last_poll_millis,
                *raw,
                now_millis,
            ),
            final(self).prev_net_rx == r.network.total_received_bytes,
            final(self).prev_net_tx == r.network.total_transmitted_bytes,
            final(self).last_poll_millis == now_millis,
    {
        let elapsed: u64 = if now_millis >= self.last_poll_millis {
            now_millis - self.last_poll_millis
        } else {
            0
        };

        let per_core = clone_u64_vec(&raw.per_core_usage);
        let cpu: CpuStats = cpu::collect(raw.cpu_global_usage, per_core);
        let memory = memory::collect(
            raw.mem_total_bytes,
            raw.mem_used_bytes,
            raw.mem_available_bytes,
            raw.swap_total_bytes,
            raw.swap_used_bytes,
        );
        let disks = disk::collect(&raw.disks);
        let (net, new_rx, new_tx) = network::collect(
            &raw.net_totals,
            self.prev_net_rx,
            self.prev_net_tx,
            elapsed,
        );
        let temperature: TemperatureStats = temperature::collect_from(&raw.sensors);

        self.prev_net_rx = new_rx;
        self.prev_net_tx = new_tx;
        self.last_poll_millis = now_millis;

        let stats = SystemStats { cpu, memory, disks, network: net, temperature, timestamp: now_millis };
        proof {
            assert(stats@ == spec_poll(
                old(self).prev_net_rx,
                old(self).prev_net_tx,
                old(self).last_poll_millis,
                *raw,
                now_millis,
            ));
        }
        stats
    }
}

/// Law: sampling twice in immediate succession with unchanged raw readings
/// yields two snapshots that agree on every derived field except the
/// timestamp, and the second cycle's rates are exactly zero, because the
/// cumulative counters did not move.
pub proof fn lemma_sample_idempotent(
    st: SystemMonitor,
    raw: RawSnapshot,
    now1: u64,
    now2: u64,
)
    ensures
        ({
            let s1 = spec_poll(st.prev_net_rx, st.prev_net_tx, st.last_poll_millis, raw, now1);
            let s2 = spec_poll(
                s1.network.total_received_bytes,
                s1.network.total_transmitted_bytes,
                now1,
                raw,
                now2,
            );
            &&& s2.cpu == s1.cpu
            &&& s2.memory == s1.memory
            &&& s2.disks == s1.disks
            &&& s2.temperature == s1.temperature
            &&& s2.network.total_received_bytes == s1.network.total_received_bytes
            &&& s2.network.total_transmitted_bytes == s1.network.total_transmitted_bytes
            &&& s2.network.received_per_sec == 0
            &&& s2.network.transmitted_per_sec == 0
            &&& s2.timestamp == now2
        }),
{
    let s1 = spec_poll(st.prev_net_rx, st.prev_net_tx, st.last_poll_millis, raw, now1);
    let rx = s1.network.total_received_bytes;
    let tx = s1.network.total_transmitted_bytes;
    assert(network::counter_delta(rx, rx) == 0);
    assert(network::counter_delta(tx, tx) == 0);
    assert(network::spec_rate(0, elapsed_millis(now1, now2)) == 0) by {
        vstd::arithmetic::div_mod::lemma_basic_div(
            0,
            network::floored_elapsed(elapsed_millis(now1, now2)) as int,
        );
    }
}

/// Clones a vector of counters.
fn clone_u64_vec(v: &Vec<u64>) -> (r: Vec<u64>)
    ensures
        r@ == v@,
{
    let n = v.len();
    let mut r: Vec<u64> = Vec::new();
    let mut i: usize = 0;
    while i < n
        invariant
            n == v@.len(),
            i <= n,
            r@ == v@.take(i as int),
        decreases n - i,
    {
        r.push(v[i]);
        i = i + 1;
        proof {
            assert(v@.take(i as int) =~= v@.take(i - 1).push(v@[i - 1]));
        }
    }
    proof {
        assert(v@.take(n as int) =~= v@);
    }
    r
}

} // verus!
