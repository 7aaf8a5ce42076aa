use mac_state_monitor::history::HistoryBuffer;
use mac_state_monitor::model::{
    CpuStats, MemoryStats, NetworkStats, SystemStats, TemperatureReading, TemperatureStats,
};

fn snapshot(cpu_centi: u64, mem_centi: u64, rx_rate: u64, tx_rate: u64) -> SystemStats {
    SystemStats {
        cpu: CpuStats { global_usage: cpu_centi, per_core_usage: vec![], core_count: 0 },
        memory: MemoryStats {
            total_bytes: 0,
            used_bytes: 0,
            available_bytes: 0,
            swap_total_bytes: 0,
            swap_used_bytes: 0,
            usage_percent: mem_centi,
        },
        disks: vec![],
        network: NetworkStats {
            total_received_bytes: 0,
            total_transmitted_bytes: 0,
            received_per_sec: rx_rate,
            transmitted_per_sec: tx_rate,
        },
        temperature: TemperatureStats { readings: vec![] },
        timestamp: 0,
    }
}

fn temp_snapshot(readings: Vec<(&str, u64)>) -> SystemStats {
    let mut s = snapshot(0, 0, 0, 0);
    s.temperature = TemperatureStats {
        readings: readings
            .into_iter()
            .map(|(label, v)| TemperatureReading {
                label: label.to_string(),
                temp_milli_c: v,
            })
            .collect(),
    };
    s
}

#[test]
fn zero_capacity_is_rejected() {
    assert!(HistoryBuffer::new(0).is_none());
    assert!(HistoryBuffer::new(1).is_some());
}

#[test]
fn series_never_exceeds_capacity_and_keeps_last_n() {
    let mut h = HistoryBuffer::new(3).unwrap();
    for v in 1..=10u64 {
        h.push(&snapshot(v, 2 * v, 3 * v, 4 * v));
        assert!(h.cpu_usage.len() <= 3);
        assert!(h.mem_usage.len() <= 3);
        assert!(h.net_down.len() <= 3);
        assert!(h.net_up.len() <= 3);
    }
    let cpu: Vec<u64> = h.cpu_usage.iter().copied().collect();
    assert_eq!(cpu, vec![8, 9, 10]);
    let mem: Vec<u64> = h.mem_usage.iter().copied().collect();
    assert_eq!(mem, vec![16, 18, 20]);
    let down: Vec<u64> = h.net_down.iter().copied().collect();
    assert_eq!(down, vec![24, 27, 30]);
    let up: Vec<u64> = h.net_up.iter().copied().collect();
    assert_eq!(up, vec![32, 36, 40]);
}

#[test]
fn short_series_keeps_all_values_in_order() {
    let mut h = HistoryBuffer::new(5).unwrap();
    h.push(&snapshot(1, 0, 0, 0));
    h.push(&snapshot(2, 0, 0, 0));
    let cpu: Vec<u64> = h.cpu_usage.iter().copied().collect();
    assert_eq!(cpu, vec![1, 2]);
}

#[test]
fn temperature_series_evicts_oldest() {
    let mut h = HistoryBuffer::new(3).unwrap();
    h.push(&temp_snapshot(vec![("CPU", 10)]));
    h.push(&temp_snapshot(vec![("CPU", 20)]));
    h.push(&temp_snapshot(vec![("CPU", 30)]));
    h.push(&temp_snapshot(vec![("CPU", 40)]));
    let series = h.temp_series("CPU").expect("series exists");
    let values: Vec<u64> = series.iter().copied().collect();
    assert_eq!(values, vec![20, 30, 40]);
}

#[test]
fn new_label_starts_a_fresh_series_without_backfill() {
    let mut h = HistoryBuffer::new(4).unwrap();
    h.push(&temp_snapshot(vec![("CPU", 50)]));
    h.push(&temp_snapshot(vec![("CPU", 51), ("GPU", 40)]));
    let gpu: Vec<u64> = h.temp_series("GPU").unwrap().iter().copied().collect();
    assert_eq!(gpu, vec![40]);
    let cpu: Vec<u64> = h.temp_series("CPU").unwrap().iter().copied().collect();
    assert_eq!(cpu, vec![50, 51]);
    assert!(h.temp_series("SSD").is_none());
}

#[test]
fn series_lookup_is_by_exact_label() {
    let mut h = HistoryBuffer::new(2).unwrap();
    h.push(&temp_snapshot(vec![("CPU", 1)]));
    assert!(h.temp_series("cpu").is_none());
    assert!(h.temp_series("CPU").is_some());
}
