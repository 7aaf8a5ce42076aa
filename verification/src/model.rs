//! Snapshot data model. One `SystemStats` value is produced per sampling
//! cycle and consumed read-only by the history buffer, the alert manager and
//! external renderers.
//!
//! All quantities are plain integers: usage percentages are held in hundredths
//! of a percent (`10000` = 100%), temperatures in thousandths of a degree
//! Celsius (`42000` = 42 °C), rates in bytes per second, and timestamps in
//! milliseconds of a monotonic clock.

use vstd::prelude::*;

use crate::text::{chars_contains, has_substring, lower_seq, str_to_lower_chars};

verus! {

/// Processor usage for one cycle.
pub struct CpuStats {
    /// Overall usage, in hundredths of a percent.
    pub global_usage: u64,
    /// Usage of each logical core, in hundredths of a percent.
    pub per_core_usage: Vec<u64>,
    /// Number of logical cores.
    pub core_count: usize,
}

/// The mathematical value of `CpuStats`.
pub ghost struct CpuStatsV {
    pub global_usage: u64,
    pub per_core_usage: Seq<u64>,
    pub core_count: usize,
}

impl View for CpuStats {
    type V = CpuStatsV;

    open spec fn view(&self) -> CpuStatsV {
        CpuStatsV {
            global_usage: self.global_usage,
            per_core_usage: self.per_core_usage@,
            core_count: self.core_count,
        }
    }
}

/// Memory usage for one cycle, in bytes.
pub struct MemoryStats {
    pub total_bytes: u64,
    pub used_bytes: u64,
    pub available_bytes: u64,
    pub swap_total_bytes: u64,
    pub swap_used_bytes: u64,
    /// `used_bytes / total_bytes`, in hundredths of a percent; 0 when
    /// `total_bytes` is 0.
    pub usage_percent: u64,
}

/// One mounted volume that met the inclusion policy.
pub struct DiskStats {
    pub name: String,
    pub mount_point: String,
    pub total_bytes: u64,
    pub available_bytes: u64,
    /// `(total_bytes - available_bytes) / total_bytes`, in hundredths of a
    /// percent; 0 when `total_bytes` is 0.
    pub usage_percent: u64,
}

/// The mathematical value of one disk entry.
pub ghost struct DiskStatsV {
    pub name: Seq<char>,
    pub mount_point: Seq<char>,
    pub total_bytes: u64,
    pub available_bytes: u64,
    pub usage_percent: u64,
}

impl View for DiskStats {
    type V = DiskStatsV;

    open spec fn view(&self) -> DiskStatsV {
        DiskStatsV {
            name: self.name@,
            mount_point: self.mount_point@,
            total_bytes: self.total_bytes,
            available_bytes: self.available_bytes,
            usage_percent: self.usage_percent,
        }
    }
}

/// Cumulative traffic counters summed over all interfaces, with the rates
/// derived from the previous cycle.
pub struct NetworkStats {
    pub total_received_bytes: u64,
    pub total_transmitted_bytes: u64,
    pub received_per_sec: u64,
    pub transmitted_per_sec: u64,
}

/// One canonical or raw sensor reading.
#[derive(Clone, Debug)]
pub struct TemperatureReading {
    /// Canonical category name (`"CPU"`, `"GPU"`, `"SSD"`) or the raw sensor
    /// label.
    pub label: String,
    /// Temperature in thousandths of a degree Celsius.
    pub temp_milli_c: u64,
}

/// The mathematical value of a temperature reading.
pub ghost struct TemperatureReadingV {
    pub label: Seq<char>,
    pub temp_milli_c: u64,
}

impl View for TemperatureReading {
    type V = TemperatureReadingV;

    open spec fn view(&self) -> TemperatureReadingV {
        TemperatureReadingV { label: self.label@, temp_milli_c: self.temp_milli_c }
    }
}

/// The ordered set of sensor readings for one cycle.
#[derive(Clone)]
pub struct TemperatureStats {
    pub readings: Vec<TemperatureReading>,
}

/// The label's lowercase form contains the fragment's lowercase form.
pub open spec fn label_matches(label: Seq<char>, fragment: Seq<char>) -> bool {
    has_substring(lower_seq(label), lower_seq(fragment))
}

impl TemperatureStats {
    /// The reading at index `i` matches the fragment, case-insensitively.
    pub open spec fn matches_at(&self, fragment: Seq<char>, i: int) -> bool {
        label_matches(self.readings@[i].label@, fragment)
    }

    /// Case-insensitive substring lookup by label fragment; returns the
    /// temperature of the first reading whose label contains the fragment.
    pub fn find_temp(&self, label_fragment: &str) -> (r: Option<u64>)
        ensures
            match r {
                Some(t) => exists|i: int|
                    0 <= i < self.readings@.len() && #[trigger] self.matches_at(
                        label_fragment@,
                        i,
                    ) && t == self.readings@[i].temp_milli_c && forall|j: int|
                        0 <= j < i ==> !self.matches_at(label_fragment@, j),
                None => forall|i: int|
                    0 <= i < self.readings@.len() ==> !self.matches_at(label_fragment@, i),
            },
    {
        let frag = str_to_lower_chars(label_fragment);
        let n = self.readings.len();
        let mut i: usize = 0;
        while i < n
            invariant
                n == self.readings@.len(),
                i <= n,
                frag@ == lower_seq(label_fragment@),
                forall|j: int| 0 <= j < i ==> !self.matches_at(label_fragment@, j),
            decreases n - i,
        {
            let label = str_to_lower_chars(self.readings[i].label.as_str());
            if chars_contains(&label, &frag) {
                proof {
                    assert(self.matches_at(label_fragment@, i as int));
                }
                return Some(self.readings[i].temp_milli_c);
            }
            i = i + 1;
        }
        None
    }
}

impl Default for TemperatureStats {
    /// An empty reading set: the legitimate "no sensors" state.
    fn default() -> (r: Self)
        ensures
            r.readings@.len() == 0,
    {
        TemperatureStats { readings: Vec::new() }
    }
}

/// The snapshot produced by one sampling cycle: always fully populated, with
/// empty or zeroed fields standing for metrics that were unavailable.
pub struct SystemStats {
    pub cpu: CpuStats,
    pub memory: MemoryStats,
    pub disks: Vec<DiskStats>,
    pub network: NetworkStats,
    pub temperature: TemperatureStats,
    /// Monotonic-clock reading for the cycle, in milliseconds.
    pub timestamp: u64,
}

/// The mathematical value of a whole snapshot.
pub ghost struct SystemStatsV {
    pub cpu: CpuStatsV,
    pub memory: MemoryStats,
    pub disks: Seq<DiskStatsV>,
    pub network: NetworkStats,
    pub temperature: Seq<TemperatureReadingV>,
    pub timestamp: u64,
}

impl View for SystemStats {
    type V = SystemStatsV;

    open spec fn view(&self) -> SystemStatsV {
        SystemStatsV {
            cpu: self.cpu@,
            memory: self.memory,
            disks: self.disks@.map_values(|d: DiskStats| d@),
            network: self.network,
            temperature: self.temperature.readings@.map_values(|r: TemperatureReading| r@),
            timestamp: self.timestamp,
        }
    }
}

/// A snapshot with every field empty or zeroed.
pub open spec fn is_zeroed_stats(s: SystemStats) -> bool {
    &&& s.cpu.global_usage == 0
    &&& s.cpu.per_core_usage@.len() == 0
    &&& s.cpu.core_count == 0
    &&& s.memory.total_bytes == 0
    &&& s.memory.used_bytes == 0
    &&& s.memory.available_bytes == 0
    &&& s.memory.swap_total_bytes == 0
    &&& s.memory.swap_used_bytes == 0
    &&& s.memory.usage_percent == 0
    &&& s.disks@.len() == 0
    &&& s.network.total_received_bytes == 0
    &&& s.network.total_transmitted_bytes == 0
    &&& s.network.received_per_sec == 0
    &&& s.network.transmitted_per_sec == 0
    &&& s.temperature.readings@.len() == 0
    &&& s.timestamp == 0
}

impl Default for SystemStats {
    /// The all-empty snapshot.
    fn default() -> (r: Self)
        ensures
            is_zeroed_stats(r),
    {
        SystemStats {
            cpu: CpuStats { global_usage: 0, per_core_usage: Vec::new(), core_count: 0 },
            memory: MemoryStats {
                total_bytes: 0,
                used_bytes: 0,
                available_bytes: 0,
                swap_total_bytes: 0,
                swap_used_bytes: 0,
                usage_percent: 0,
            },
            disks: Vec::new(),
            network: NetworkStats {
                total_received_bytes: 0,
                total_transmitted_bytes: 0,
                received_per_sec: 0,
                transmitted_per_sec: 0,
            },
            temperature: TemperatureStats { readings: Vec::new() },
            timestamp: 0,
        }
    }
}

} // verus!
