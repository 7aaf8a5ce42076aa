use mac_state_monitor::alert::{AlertKind, AlertManager};
use mac_state_monitor::model::{
    CpuStats, MemoryStats, NetworkStats, SystemStats, TemperatureReading, TemperatureStats,
};

fn stats(cpu_centi: u64, mem_centi: u64, temps_milli: Vec<u64>) -> SystemStats {
    SystemStats {
        cpu: CpuStats { global_usage: cpu_centi, per_core_usage: vec![], core_count: 0 },
        memory: MemoryStats {
            total_bytes: 0,
            used_bytes: 0,
            available_bytes: 0,
            swap_total_bytes: 0,
            swap_used_bytes: 0,
            usage_percent: mem_centi,
        },
        disks: vec![],
        network: NetworkStats {
            total_received_bytes: 0,
            total_transmitted_bytes: 0,
            received_per_sec: 0,
            transmitted_per_sec: 0,
        },
        temperature: TemperatureStats {
            readings: temps_milli
                .into_iter()
                .map(|v| TemperatureReading { label: "CPU".to_string(), temp_milli_c: v })
                .collect(),
        },
        timestamp: 0,
    }
}

#[test]
fn cpu_alert_debounce_over_three_feeds() {
    let mut m = AlertManager::new();
    // usage 95% at t=0 fires exactly one alert
    let e1 = m.check(&stats(9500, 0, vec![]), 0);
    assert_eq!(e1.len(), 1);
    assert_eq!(e1[0].kind, AlertKind::Cpu);
    // usage 96% at t=10s is inside the cooldown window: no alert
    let e2 = m.check(&stats(9600, 0, vec![]), 10_000);
    assert_eq!(e2.len(), 0);
    // usage 97% at t=61s fires exactly one more
    let e3 = m.check(&stats(9700, 0, vec![]), 61_000);
    assert_eq!(e3.len(), 1);
    assert_eq!(e3[0].kind, AlertKind::Cpu);
}

#[test]
fn threshold_is_inclusive() {
    let mut m = AlertManager::new();
    let e = m.check(&stats(9000, 0, vec![]), 0);
    assert_eq!(e.len(), 1);
}

#[test]
fn below_threshold_never_fires() {
    let mut m = AlertManager::new();
    let e = m.check(&stats(8999, 8999, vec![94_999]), 0);
    assert_eq!(e.len(), 0);
}

#[test]
fn each_metric_fires_independently() {
    let mut m = AlertManager::new();
    let e = m.check(&stats(9500, 9100, vec![96_000]), 0);
    let kinds: Vec<AlertKind> = e.iter().map(|x| x.kind).collect();
    assert_eq!(kinds, vec![AlertKind::Cpu, AlertKind::Memory, AlertKind::Temperature]);
    // memory recovers; cpu and temperature stay hot but are cooling down
    let e2 = m.check(&stats(9500, 0, vec![96_000]), 30_000);
    assert_eq!(e2.len(), 0);
    // after the cooldown the still-hot metrics fire again
    let e3 = m.check(&stats(9500, 0, vec![96_000]), 60_000);
    let kinds3: Vec<AlertKind> = e3.iter().map(|x| x.kind).collect();
    assert_eq!(kinds3, vec![AlertKind::Cpu, AlertKind::Temperature]);
}

#[test]
fn event_titles_and_messages() {
    let mut m = AlertManager::new();
    let e = m.check(&stats(9500, 9240, vec![96_400]), 0);
    assert_eq!(e.len(), 3);
    assert_eq!(e[0].title, "CPU Usage High");
    assert_eq!(e[0].message, "CPU at 95%");
    assert_eq!(e[1].title, "Memory Usage High");
    assert_eq!(e[1].message, "Memory at 92%");
    assert_eq!(e[2].title, "Temperature High");
    assert_eq!(e[2].message, "Temperature at 96C");
}

#[test]
fn temperature_uses_the_hottest_reading() {
    let mut m = AlertManager::new();
    let e = m.check(&stats(0, 0, vec![80_000, 95_000, 90_000]), 0);
    assert_eq!(e.len(), 1);
    assert_eq!(e[0].kind, AlertKind::Temperature);
    assert_eq!(e[0].message, "Temperature at 95C");
}

#[test]
fn custom_thresholds_and_cooldown() {
    let mut m = AlertManager::with_config(5000, 10_000, 200_000, 1_000);
    let e = m.check(&stats(5000, 9999, vec![150_000]), 0);
    assert_eq!(e.len(), 1);
    assert_eq!(e[0].kind, AlertKind::Cpu);
    // a one-second cooldown reopens quickly
    let e2 = m.check(&stats(5000, 0, vec![]), 1_000);
    assert_eq!(e2.len(), 1);
}

#[test]
fn no_readings_means_no_temperature_alert() {
    let mut m = AlertManager::new();
    let e = m.check(&stats(0, 0, vec![]), 0);
    assert_eq!(e.len(), 0);
}
