use auv_cli::devices::{ConfiguredProfile, DeviceSummary};
use auv_cli::tables::{
    configured_device_table_row, device_profile_table_row, device_table_row, run_table_row, runner_class_table_row,
    runner_table_row, select_runs, RunSummary, RunnerClassSummary, RunnerSummary,
};

fn profile() -> ConfiguredProfile {
    ConfiguredProfile {
        config_profile: "node1".to_string(),
        device_id: "device_019fb9193a0c73d2".to_string(),
        device_name: "Studio".to_string(),
        endpoint: "http://10.0.0.2:9847".to_string(),
    }
}

fn run(id: Option<&str>, devices: &[&str]) -> RunSummary {
    RunSummary {
        run_id: id.map(str::to_string),
        phase: "RUN_PHASE_ACTIVE".to_string(),
        device_ids: devices.iter().map(|d| d.to_string()).collect(),
    }
}

#[test]
fn device_rows_use_short_ids_and_platform_names() {
    let device = DeviceSummary {
        device_id: Some("device_019fb919-3a0c-73d2".to_string()),
        name: String::new(),
        platform: "DEVICE_PLATFORM_MACOS".to_string(),
        local: true,
    };
    let row = device_table_row(&device, "online");
    assert_eq!(row.device_id, "019fb9193a0c");
    assert_eq!(row.name, None);
    assert_eq!(row.platform.as_deref(), Some("macos"));
    assert!(row.local);
    assert_eq!(row.status, "online");
    assert_eq!(row.profile, None);
    let missing = DeviceSummary { device_id: None, ..device };
    assert_eq!(device_table_row(&missing, "online").device_id, "<missing>");
}

#[test]
fn profile_rows_prefer_what_the_probe_saw() {
    let unreachable = configured_device_table_row(&profile(), "offline", &None);
    assert_eq!(unreachable.device_id, "019fb9193a0c");
    assert_eq!(unreachable.name.as_deref(), Some("Studio"));
    assert_eq!(unreachable.platform, None);
    assert_eq!(unreachable.profile.as_deref(), Some("node1"));
    let remote = DeviceSummary {
        device_id: Some("device_019fb9193a0c73d2".to_string()),
        name: "Studio Mac".to_string(),
        platform: "DEVICE_PLATFORM_MACOS".to_string(),
        local: false,
    };
    let reached = configured_device_table_row(&profile(), "online", &Some(remote));
    assert_eq!(reached.name.as_deref(), Some("Studio Mac"));
    assert_eq!(reached.platform.as_deref(), Some("macos"));
    assert!(!reached.local);
    let row = device_profile_table_row(&profile());
    assert_eq!(
        (row.config_profile.as_str(), row.device_id.as_str(), row.name.as_str(), row.endpoint.as_str()),
        ("node1", "019fb9193a0c", "Studio", "http://10.0.0.2:9847")
    );
}

#[test]
fn runner_class_and_runner_rows_shorten_their_names() {
    let class = RunnerClassSummary {
        runner_class: None,
        display_name: "Local".to_string(),
        available: true,
        device_id: Some("device_abc".to_string()),
        supported_lifecycles: vec!["RUNNER_LIFECYCLE_EPHEMERAL".to_string(), "RUNNER_LIFECYCLE_UNLESS_IDLE".to_string()],
    };
    let row = runner_class_table_row(&class);
    assert_eq!(row.runner_class, "<missing>");
    assert_eq!(row.device_id.as_deref(), Some("abc"));
    assert_eq!(row.lifecycles, "ephemeral,unless-idle");
    let runner = RunnerSummary {
        runner_id: Some("runner_0123456789abcdef".to_string()),
        runner_class: Some("auv.core.local".to_string()),
        phase: "RUNNER_PHASE_READY".to_string(),
        process_id: 0,
        device_id: None,
        lifecycle: "RUNNER_LIFECYCLE_UNLESS_SHUTDOWN".to_string(),
        active_operations: 2,
    };
    let row = runner_table_row(&runner);
    assert_eq!(row.runner_id, "0123456789ab");
    assert_eq!(row.class, "auv.core.local");
    assert_eq!(row.phase, "ready");
    assert_eq!(row.pid, None);
    assert_eq!(row.lifecycle, "unless-shutdown");
    assert_eq!(runner_table_row(&RunnerSummary { process_id: 42, ..runner }).pid, Some(42));
}

#[test]
fn run_rows_and_run_selection() {
    let row = run_table_row(&run(Some("run_019f-b919"), &["device_a", "device_b"]));
    assert_eq!((row.run_id.as_str(), row.phase.as_str(), row.device_ids.as_str()), ("019fb919", "active", "a,b"));
    let runs = vec![run(Some("run_aa"), &["device_a"]), run(Some("run_ab"), &["device_b"]), run(None, &["device_a"])];
    assert_eq!(select_runs(runs.clone(), Some("device_a"), None), vec![runs[0].clone(), runs[2].clone()]);
    assert_eq!(select_runs(runs.clone(), None, Some("ab")), vec![runs[1].clone()]);
    assert_eq!(select_runs(runs.clone(), Some("device_b"), Some("aa")), vec![]);
}
