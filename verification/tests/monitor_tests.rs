use mac_state_monitor::monitor::{cpu, disk, memory, network, temperature};
use mac_state_monitor::monitor::{RawDisk, RawSensor, RawSnapshot, SystemMonitor};

fn sensor(label: &str, temp_milli_c: i64) -> RawSensor {
    RawSensor { label: label.to_string(), temp_milli_c: Some(temp_milli_c) }
}

fn raw_disk(name: &str, mount: &str, total: u64, available: u64) -> RawDisk {
    RawDisk {
        name: name.to_string(),
        mount_point: mount.to_string(),
        total_bytes: total,
        available_bytes: available,
    }
}

// --- sensor classification ---

#[test]
fn performance_die_readings_average_into_one_cpu_reading() {
    let t = temperature::collect_from(&vec![sensor("PMU Tdie1", 40_000), sensor("PMU Tdie2", 44_000)]);
    assert_eq!(t.readings.len(), 1);
    assert_eq!(t.readings[0].label, "CPU");
    assert_eq!(t.readings[0].temp_milli_c, 42_000);
}

#[test]
fn gpu_die_reading_is_reported_as_gpu() {
    let t = temperature::collect_from(&vec![sensor("GPU Die", 55_000)]);
    assert_eq!(t.readings.len(), 1);
    assert_eq!(t.readings[0].label, "GPU");
    assert_eq!(t.readings[0].temp_milli_c, 55_000);
}

#[test]
fn storage_reading_is_last_write_wins_not_average() {
    let t = temperature::collect_from(&vec![sensor("NAND Temp", 38_000), sensor("SSD Sensor", 41_000)]);
    let ssd = t.readings.iter().find(|r| r.label == "SSD").expect("SSD reading");
    assert_eq!(ssd.temp_milli_c, 41_000);
}

#[test]
fn reading_outside_validity_window_is_discarded() {
    let t = temperature::collect_from(&vec![sensor("CPU Core", 200_000)]);
    assert_eq!(t.readings.len(), 0);
    let t2 = temperature::collect_from(&vec![sensor("CPU Core", 0)]);
    assert_eq!(t2.readings.len(), 0);
    let t3 = temperature::collect_from(&vec![sensor("CPU Core", -5_000)]);
    assert_eq!(t3.readings.len(), 0);
    let t4 = temperature::collect_from(&vec![sensor("CPU Core", 150_000)]);
    assert_eq!(t4.readings.len(), 1);
}

#[test]
fn missing_reading_is_skipped() {
    let t = temperature::collect_from(&vec![RawSensor {
        label: "CPU Core".to_string(),
        temp_milli_c: None,
    }]);
    assert_eq!(t.readings.len(), 0);
}

#[test]
fn secondary_die_and_device_prefixes() {
    let t = temperature::collect_from(&vec![
        sensor("PMU2 Tdie5", 50_000),
        sensor("PMU Tdev3", 42_000),
    ]);
    assert_eq!(t.readings.len(), 2);
    assert_eq!(t.readings[0].label, "CPU");
    assert_eq!(t.readings[0].temp_milli_c, 42_000);
    assert_eq!(t.readings[1].label, "GPU");
    assert_eq!(t.readings[1].temp_milli_c, 50_000);
}

#[test]
fn pmu_noise_is_skipped_and_unknown_labels_kept_verbatim() {
    let t = temperature::collect_from(&vec![
        sensor("PMU tcal", 30_000),
        sensor("Airflow Left", 28_000),
    ]);
    assert_eq!(t.readings.len(), 1);
    assert_eq!(t.readings[0].label, "Airflow Left");
    assert_eq!(t.readings[0].temp_milli_c, 28_000);
}

#[test]
fn canonical_readings_come_in_category_order() {
    let t = temperature::collect_from(&vec![
        sensor("Airflow", 28_000),
        sensor("SSD", 39_000),
        sensor("gpu thermal", 52_000),
        sensor("cpu thermal", 61_000),
    ]);
    let labels: Vec<&str> = t.readings.iter().map(|r| r.label.as_str()).collect();
    assert_eq!(labels, vec!["CPU", "GPU", "SSD", "Airflow"]);
}

#[test]
fn no_sensors_is_a_legitimate_empty_state() {
    let t = temperature::collect_from(&vec![]);
    assert_eq!(t.readings.len(), 0);
}

#[test]
fn mean_truncates_toward_zero() {
    let t = temperature::collect_from(&vec![sensor("cpu a", 40_000), sensor("cpu b", 40_001)]);
    assert_eq!(t.readings[0].temp_milli_c, 40_000);
}

// --- network rates ---

#[test]
fn counter_reset_clamps_rate_to_zero() {
    let totals = vec![(1_000u64, 2_000u64)];
    let (stats, new_rx, new_tx) = network::collect(&totals, 5_000, 9_000, 1_000);
    assert_eq!(stats.received_per_sec, 0);
    assert_eq!(stats.transmitted_per_sec, 0);
    assert_eq!(new_rx, 1_000);
    assert_eq!(new_tx, 2_000);
}

#[test]
fn rate_is_delta_over_elapsed() {
    let totals = vec![(10_000u64, 4_000u64)];
    let (stats, _, _) = network::collect(&totals, 4_000, 1_000, 2_000);
    // 6000 bytes over 2 seconds
    assert_eq!(stats.received_per_sec, 3_000);
    // 3000 bytes over 2 seconds
    assert_eq!(stats.transmitted_per_sec, 1_500);
}

#[test]
fn elapsed_is_floored_at_a_tenth_of_a_second() {
    let totals = vec![(1_000u64, 0u64)];
    let (stats, _, _) = network::collect(&totals, 0, 0, 0);
    // 1000 bytes over the floored 0.1 s
    assert_eq!(stats.received_per_sec, 10_000);
}

#[test]
fn totals_sum_over_all_interfaces() {
    let totals = vec![(1u64, 10u64), (2, 20), (3, 30)];
    let (rx, tx) = network::total_bytes(&totals);
    assert_eq!(rx, 6);
    assert_eq!(tx, 60);
}

#[test]
fn totals_saturate_instead_of_wrapping() {
    let totals = vec![(u64::MAX, 0u64), (1, 0)];
    let (rx, _) = network::total_bytes(&totals);
    assert_eq!(rx, u64::MAX);
}

// --- disks ---

#[test]
fn disk_usage_percent_is_derived() {
    let out = disk::collect(&vec![raw_disk("disk1", "/", 100, 25)]);
    assert_eq!(out.len(), 1);
    assert_eq!(out[0].usage_percent, 7_500);
    assert_eq!(out[0].name, "disk1");
    assert_eq!(out[0].mount_point, "/");
}

#[test]
fn zero_capacity_disk_is_excluded() {
    let out = disk::collect(&vec![raw_disk("disk1", "/", 0, 0)]);
    assert_eq!(out.len(), 0);
}

#[test]
fn system_volumes_mounts_are_excluded() {
    let out = disk::collect(&vec![
        raw_disk("disk1", "/System/Volumes/Data", 100, 50),
        raw_disk("disk2", "/", 100, 50),
    ]);
    assert_eq!(out.len(), 1);
    assert_eq!(out[0].name, "disk2");
}

#[test]
fn duplicate_device_names_are_listed_once() {
    let out = disk::collect(&vec![
        raw_disk("disk1", "/", 100, 50),
        raw_disk("disk1", "/private/var", 100, 40),
        raw_disk("disk2", "/mnt", 200, 60),
    ]);
    assert_eq!(out.len(), 2);
    assert_eq!(out[0].mount_point, "/");
    assert_eq!(out[1].name, "disk2");
}

#[test]
fn available_beyond_total_reads_as_nothing_used() {
    let out = disk::collect(&vec![raw_disk("disk1", "/", 100, 150)]);
    assert_eq!(out[0].usage_percent, 0);
}

// --- cpu and memory ---

#[test]
fn cpu_fragment_carries_per_core_readings() {
    let c = cpu::collect(4_210, vec![4_000, 4_400]);
    assert_eq!(c.global_usage, 4_210);
    assert_eq!(c.core_count, 2);
    assert_eq!(c.per_core_usage, vec![4_000, 4_400]);
}

#[test]
fn memory_usage_percent_handles_zero_total() {
    let m = memory::collect(0, 0, 0, 0, 0);
    assert_eq!(m.usage_percent, 0);
    let m2 = memory::collect(1_000, 250, 750, 10, 5);
    assert_eq!(m2.usage_percent, 2_500);
    assert_eq!(m2.swap_total_bytes, 10);
    assert_eq!(m2.swap_used_bytes, 5);
}

// --- the poller ---

fn raw(cpu_centi: u64, rx: u64, tx: u64, sensors: Vec<RawSensor>) -> RawSnapshot {
    RawSnapshot {
        cpu_global_usage: cpu_centi,
        per_core_usage: vec![cpu_centi],
        mem_total_bytes: 1_000,
        mem_used_bytes: 400,
        mem_available_bytes: 600,
        swap_total_bytes: 0,
        swap_used_bytes: 0,
        disks: vec![raw_disk("disk1", "/", 100, 25)],
        net_totals: vec![(rx, tx)],
        sensors,
    }
}

#[test]
fn poll_assembles_a_fully_populated_snapshot() {
    let mut mon = SystemMonitor::new(&vec![(1_000, 2_000)], 0);
    let s = mon.poll_from(&raw(5_000, 3_000, 4_000, vec![sensor("cpu", 50_000)]), 1_000);
    assert_eq!(s.timestamp, 1_000);
    assert_eq!(s.cpu.global_usage, 5_000);
    assert_eq!(s.memory.usage_percent, 4_000);
    assert_eq!(s.disks.len(), 1);
    assert_eq!(s.network.total_received_bytes, 3_000);
    assert_eq!(s.network.total_transmitted_bytes, 4_000);
    // 2000 bytes grown over 1 s
    assert_eq!(s.network.received_per_sec, 2_000);
    assert_eq!(s.network.transmitted_per_sec, 2_000);
    assert_eq!(s.temperature.readings.len(), 1);
    assert_eq!(s.temperature.readings[0].label, "CPU");
}

#[test]
fn resampling_unchanged_state_changes_only_timestamp_and_rates() {
    let sensors = || vec![sensor("cpu", 50_000)];
    let mut mon = SystemMonitor::new(&vec![(1_000, 2_000)], 0);
    let s1 = mon.poll_from(&raw(5_000, 3_000, 4_000, sensors()), 1_000);
    let s2 = mon.poll_from(&raw(5_000, 3_000, 4_000, sensors()), 1_050);
    assert_eq!(s2.cpu.global_usage, s1.cpu.global_usage);
    assert_eq!(s2.cpu.per_core_usage, s1.cpu.per_core_usage);
    assert_eq!(s2.memory.usage_percent, s1.memory.usage_percent);
    assert_eq!(s2.disks.len(), s1.disks.len());
    assert_eq!(s2.disks[0].usage_percent, s1.disks[0].usage_percent);
    assert_eq!(s2.temperature.readings.len(), s1.temperature.readings.len());
    assert_eq!(
        s2.temperature.readings[0].temp_milli_c,
        s1.temperature.readings[0].temp_milli_c
    );
    // cumulative counters did not move, so the second cycle's rates are zero
    assert_eq!(s2.network.total_received_bytes, s1.network.total_received_bytes);
    assert_eq!(s2.network.total_transmitted_bytes, s1.network.total_transmitted_bytes);
    assert_eq!(s2.network.received_per_sec, 0);
    assert_eq!(s2.network.transmitted_per_sec, 0);
    assert_ne!(s2.timestamp, s1.timestamp);
}

#[test]
fn poller_is_primed_with_initial_counters() {
    let mut mon = SystemMonitor::new(&vec![(500, 700)], 0);
    let s = mon.poll_from(&raw(0, 500, 700, vec![]), 1_000);
    // no growth since construction: rates are zero, not bytes-since-boot
    assert_eq!(s.network.received_per_sec, 0);
    assert_eq!(s.network.transmitted_per_sec, 0);
}
