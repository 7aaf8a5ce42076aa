//! Debounced threshold alerts. Each monitored metric (overall processor
//! usage, memory usage, maximum temperature) fires one alert event the moment
//! it is at or above its threshold, provided at least the cooldown has passed
//! since that metric's last alert. No event is emitted while the metric stays
//! above threshold inside the cooldown window, and no "resolved" event is
//! ever emitted. Delivery of the events is the caller's concern.

use vstd::prelude::*;
use vstd::string::StringExecFns;

use crate::model::{SystemStats, TemperatureReading, TemperatureStats};
use crate::text::{dec_str, u64_to_string};

verus! {

/// The metric an alert event is about.
#[derive(Clone, Copy, Debug, PartialEq, Eq, Structural)]
pub enum AlertKind {
    Cpu,
    Memory,
    Temperature,
}

/// One alert event, handed to an external notification sink as a title and a
/// formatted message.
pub struct AlertEvent {
    pub kind: AlertKind,
    pub title: String,
    pub message: String,
}

/// Division rounded to the nearest integer, ties to the even neighbour.
pub open spec fn round_div(v: int, unit: int) -> int
    recommends
        unit >= 2,
{
    let q = v / unit;
    let r = v % unit;
    if 2 * r > unit {
        q + 1
    } else if 2 * r < unit {
        q
    } else if q % 2 == 0 {
        q
    } else {
        q + 1
    }
}

fn round_div_u64(v: u64, unit: u64) -> (r: u64)
    requires
        2 <= unit <= 100000,
    ensures
        r == round_div(v as int, unit as int),
{
    let q = v / unit;
    let rem = v % unit;
    proof {
        vstd::arithmetic::div_mod::lemma_div_is_ordered_by_denominator(v as int, 2, unit as int);
        assert(q + 1 <= u64::MAX);
    }
    if 2 * rem > unit {
        q + 1
    } else if 2 * rem < unit {
        q
    } else if q % 2 == 0 {
        q
    } else {
        q + 1
    }
}

/// Message of a processor-usage alert, for a usage in hundredths of a percent.
pub open spec fn cpu_alert_message(v: u64) -> Seq<char> {
    "CPU at "@ + dec_str(round_div(v as int, 100)) + "%"@
}

/// Message of a memory-usage alert, for a usage in hundredths of a percent.
pub open spec fn mem_alert_message(v: u64) -> Seq<char> {
    "Memory at "@ + dec_str(round_div(v as int, 100)) + "%"@
}

/// Message of a temperature alert, for a reading in thousandths of a degree.
pub open spec fn temp_alert_message(v: u64) -> Seq<char> {
    "Temperature at "@ + dec_str(round_div(v as int, 1000)) + "C"@
}

/// The hottest reading of the cycle, or 0 when there are no readings.
pub open spec fn max_temp(readings: Seq<TemperatureReading>) -> u64
    decreases readings.len(),
{
    if readings.len() == 0 {
        0
    } else {
        let m = max_temp(readings.drop_last());
        if readings.last().temp_milli_c >= m {
            readings.last().temp_milli_c
        } else {
            m
        }
    }
}

/// Computes the hottest reading of the cycle.
pub fn max_temp_of(t: &TemperatureStats) -> (r: u64)
    ensures
        r == max_temp(t.readings@),
{
    let n = t.readings.len();
    let mut m: u64 = 0;
    let mut i: usize = 0;
    while i < n
        invariant
            n == t.readings@.len(),
            i <= n,
            m == max_temp(t.readings@.take(i as int)),
        decreases n - i,
    {
        let v = t.readings[i].temp_milli_c;
        if v >= m {
            m = v;
        }
        i = i + 1;
        proof {
            assert(t.readings@.take(i as int).drop_last() =~= t.readings@.take(i - 1));
            assert(t.readings@.take(i as int).last() == t.readings@[i - 1]);
        }
    }
    proof {
        assert(t.readings@.take(n as int) =~= t.readings@);
    }
    m
}

/// A metric may fire when it has never alerted, or when at least the cooldown
/// has passed since its last alert (elapsed time saturates at zero, so a
/// clock that stands still never shortens the window).
pub open spec fn may_fire(last: Option<u64>, now: u64, cooldown: u64) -> bool {
    match last {
        None => true,
        Some(t) => (if now >= t {
            now - t
        } else {
            0
        }) >= cooldown,
    }
}

/// Stateful threshold evaluator with one cooldown tracked independently per
/// metric. Thresholds for usage metrics are in hundredths of a percent, the
/// temperature threshold in thousandths of a degree Celsius, the cooldown in
/// milliseconds, and timestamps come from the caller's monotonic clock.
pub struct AlertManager {
    pub cpu_threshold: u64,
    pub mem_threshold: u64,
    pub temp_threshold: u64,
    pub cooldown_millis: u64,
    pub last_cpu_alert: Option<u64>,
    pub last_mem_alert: Option<u64>,
    pub last_temp_alert: Option<u64>,
}

impl AlertManager {
    /// Whether the processor-usage alert fires for this snapshot at this
    /// instant.
    pub open spec fn cpu_fires(&self, stats: SystemStats, now_millis: u64) -> bool {
        stats.cpu.global_usage >= self.cpu_threshold && may_fire(
            self.last_cpu_alert,
            now_millis,
            self.cooldown_millis,
        )
    }

    /// Whether the memory-usage alert fires for this snapshot at this instant.
    pub open spec fn mem_fires(&self, stats: SystemStats, now_millis: u64) -> bool {
        stats.memory.usage_percent >= self.mem_threshold && may_fire(
            self.last_mem_alert,
            now_millis,
            self.cooldown_millis,
        )
    }

    /// Whether the temperature alert fires for this snapshot at this instant.
    pub open spec fn temp_fires(&self, stats: SystemStats, now_millis: u64) -> bool {
        max_temp(stats.temperature.readings@) >= self.temp_threshold && may_fire(
            self.last_temp_alert,
            now_millis,
            self.cooldown_millis,
        )
    }

    /// An alert manager with the default thresholds: processor 90%, memory
    /// 90%, temperature 95 °C, cooldown 60 seconds.
    pub fn new() -> (r: Self)
        ensures
            r.cpu_threshold == 9000,
            r.mem_threshold == 9000,
            r.temp_threshold == 95000,
            r.cooldown_millis == 60000,
            r.last_cpu_alert is None,
            r.last_mem_alert is None,
            r.last_temp_alert is None,
    {
        AlertManager {
            cpu_threshold: 9000,
            mem_threshold: 9000,
            temp_threshold: 95000,
            cooldown_millis: 60000,
            last_cpu_alert: None,
            last_mem_alert: None,
            last_temp_alert: None,
        }
    }

    /// An alert manager with caller-chosen thresholds and cooldown: usage
    /// thresholds in hundredths of a percent, the temperature threshold in
    /// thousandths of a degree, the cooldown in milliseconds.
    pub fn with_config(
        cpu_threshold: u64,
        mem_threshold: u64,
        temp_threshold: u64,
        cooldown_millis: u64,
    ) -> (r: Self)
        ensures
            r.cpu_threshold == cpu_threshold,
            r.mem_threshold == mem_threshold,
            r.temp_threshold == temp_threshold,
            r.cooldown_millis == cooldown_millis,
            r.last_cpu_alert is None,
            r.last_mem_alert is None,
            r.last_temp_alert is None,
    {
        AlertManager {
            cpu_threshold,
            mem_threshold,
            temp_threshold,
            cooldown_millis,
            last_cpu_alert: None,
            last_mem_alert: None,
            last_temp_alert: None,
        }
    }

    /// Evaluates one snapshot: for each metric at or above its threshold and
    /// out of its cooldown window, exactly one event is emitted (processor,
    /// memory, temperature, in that order) and the firing instant is
    /// recorded; nothing else changes.
    pub fn check(&mut self, stats: &SystemStats, now_millis: u64) -> (events: Vec<AlertEvent>)
        ensures
            final(self).cpu_threshold == old(self).cpu_threshold,
            final(self).mem_threshold == old(self).mem_threshold,
            final(self).temp_threshold == old(self).temp_threshold,
            final(self).cooldown_millis == old(self).cooldown_millis,
            final(self).last_cpu_alert == if old(self).cpu_fires(*stats, now_millis) {
                Some(now_millis)
            } else {
                old(self).last_cpu_alert
            },
            final(self).last_mem_alert == if old(self).mem_fires(*stats, now_millis) {
                Some(now_millis)
            } else {
                old(self).last_mem_alert
            },
            final(self).last_temp_alert == if old(self).temp_fires(*stats, now_millis) {
                Some(now_millis)
            } else {
                old(self).last_temp_alert
            },
            events@.map_values(|e: AlertEvent| e.kind) == (if old(self).cpu_fires(
                *stats,
                now_millis,
            ) {
                seq![AlertKind::Cpu]
            } else {
                Seq::empty()
            }) + (if old(self).mem_fires(*stats, now_millis) {
                seq![AlertKind::Memory]
            } else {
                Seq::empty()
            }) + (if old(self).temp_fires(*stats, now_millis) {
                seq![AlertKind::Temperature]
            } else {
                Seq::empty()
            }),
            forall|i: int|
                0 <= i < events@.len() ==> #[trigger] event_describes(events@[i], *stats),
    {
        let mut events: Vec<AlertEvent> = Vec::new();

        if stats.cpu.global_usage >= self.cpu_threshold && can_alert(
            &self.last_cpu_alert,
            now_millis,
            self.cooldown_millis,
        ) {
            let mut message = String::from_str("CPU at ");
            message.append(u64_to_string(round_div_u64(stats.cpu.global_usage, 100)).as_str());
            message.append("%");
            events.push(
                AlertEvent {
                    kind: AlertKind::Cpu,
                    title: String::from_str("CPU Usage High"),
                    message,
                },
            );
            self.last_cpu_alert = Some(now_millis);
        }

        if stats.memory.usage_percent >= self.mem_threshold && can_alert(
            &self.last_mem_alert,
            now_millis,
            self.cooldown_millis,
        ) {
            let mut message = String::from_str("Memory at ");
            message.append(u64_to_string(round_div_u64(stats.memory.usage_percent, 100)).as_str());
            message.append("%");
            events.push(
                AlertEvent {
                    kind: AlertKind::Memory,
                    title: String::from_str("Memory Usage High"),
                    message,
                },
            );
            self.last_mem_alert = Some(now_millis);
        }

        let hottest = max_temp_of(&stats.temperature);
        if hottest >= self.temp_threshold && can_alert(
            &self.last_temp_alert,
            now_millis,
            self.cooldown_millis,
        ) {
            let mut message = String::from_str("Temperature at ");
            message.append(u64_to_string(round_div_u64(hottest, 1000)).as_str());
            message.append("C");
            events.push(
                AlertEvent {
                    kind: AlertKind::Temperature,
                    title: String::from_str("Temperature High"),
                    message,
                },
            );
            self.last_temp_alert = Some(now_millis);
        }

        proof {
            assert(events@.map_values(|e: AlertEvent| e.kind) =~= (if old(self).cpu_fires(
                *stats,
                now_millis,
            ) {
                seq![AlertKind::Cpu]
            } else {
                Seq::empty()
            }) + (if old(self).mem_fires(*stats, now_millis) {
                seq![AlertKind::Memory]
            } else {
                Seq::empty()
            }) + (if old(self).temp_fires(*stats, now_millis) {
                seq![AlertKind::Temperature]
            } else {
                Seq::empty()
            }));
        }
        events
    }
}

/// The title and message of an event are the ones its kind and the snapshot
/// prescribe.
pub open spec fn event_describes(e: AlertEvent, stats: SystemStats) -> bool {
    match e.kind {
        AlertKind::Cpu => e.title@ == "CPU Usage High"@ && e.message@ == cpu_alert_message(
            stats.cpu.global_usage,
        ),
        AlertKind::Memory => e.title@ == "Memory Usage High"@ && e.message@ == mem_alert_message(
            stats.memory.usage_percent,
        ),
        AlertKind::Temperature => e.title@ == "Temperature High"@ && e.message@
            == temp_alert_message(max_temp(stats.temperature.readings@)),
    }
}

/// Whether the cooldown permits this metric to alert now.
fn can_alert(last: &Option<u64>, now_millis: u64, cooldown_millis: u64) -> (r: bool)
    ensures
        r == may_fire(*last, now_millis, cooldown_millis),
{
    match last {
        None => true,
        Some(t) => {
            let elapsed = if now_millis >= *t {
                now_millis - *t
            } else {
                0
            };
            elapsed >= cooldown_millis
        },
    }
}

} // verus!
