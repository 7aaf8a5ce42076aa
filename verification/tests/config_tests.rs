use mac_state_monitor::config::{Config, CustomRunnerSet, RunnerIconMode};

#[test]
fn default_config_values() {
    let c = Config::default();
    assert_eq!(c.poll_interval_secs, 1);
    assert_eq!(c.menubar_temp_component, "CPU");
    assert!(!c.launch_at_login);
    assert_eq!(c.runner_id, "runcat:cat");
    assert_eq!(c.runner_frame_ms, 100);
    assert_eq!(c.runner_display_secs, 600);
    assert_eq!(c.runner_rotation_ids, vec!["runcat:cat".to_string()]);
    assert!(c.custom_runner_sets.is_empty());
    assert!(c.runner_icon_mode == RunnerIconMode::White);
}

#[test]
fn custom_runner_set_keeps_its_parts() {
    let s = CustomRunnerSet::new(
        "set-1".to_string(),
        "My Set".to_string(),
        vec!["a.png".to_string(), "b.png".to_string()],
    );
    assert_eq!(s.id, "set-1");
    assert_eq!(s.name, "My Set");
    assert_eq!(s.frame_paths.len(), 2);
}

#[test]
fn set_id_is_the_prefixed_timestamp() {
    assert_eq!(mac_state_monitor::config::make_set_id(0), "set-0");
    assert_eq!(mac_state_monitor::config::make_set_id(12345), "set-12345");
    assert_eq!(
        mac_state_monitor::config::make_set_id(u64::MAX),
        format!("set-{}", u64::MAX)
    );
}

#[test]
fn generated_id_is_a_prefixed_decimal_timestamp() {
    let id = CustomRunnerSet::generate_id();
    let digits = id.strip_prefix("set-").expect("set- prefix");
    assert!(!digits.is_empty());
    assert!(digits.chars().all(|c| c.is_ascii_digit()));
    // no leading zero unless the value is zero itself
    assert!(digits == "0" || !digits.starts_with('0'));
    // the clock reads a plausible modern instant, so the id is not constant
    let parsed: u64 = digits.parse().expect("decimal");
    assert!(parsed > 1_000_000_000_000);
}
