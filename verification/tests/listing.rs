use auv_cli::devices::{ConfiguredProfile, DeviceSummary};
use auv_cli::listing::{device_listing, probe_status, select_devices, select_profiles, ListingRow, ProbeFailure, RemoteCode};

fn device(id: &str, name: &str, local: bool) -> DeviceSummary {
    DeviceSummary { device_id: Some(id.to_string()), name: name.to_string(), platform: "DEVICE_PLATFORM_MACOS".to_string(), local }
}

fn profile(name: &str, id: &str, device_name: &str) -> ConfiguredProfile {
    ConfiguredProfile {
        config_profile: name.to_string(),
        device_id: id.to_string(),
        device_name: device_name.to_string(),
        endpoint: "http://10.0.0.2:9847".to_string(),
    }
}

#[test]
fn the_root_selection_filters_devices_and_profiles() {
    let devices = vec![device("device_a1", "studio", true), device("device_b2", "laptop", false)];
    assert_eq!(select_devices(devices.clone(), Some("a"), None), vec![devices[0].clone()]);
    assert_eq!(select_devices(devices.clone(), None, Some("laptop")), vec![devices[1].clone()]);
    assert_eq!(select_devices(devices.clone(), Some("b"), Some("studio")), vec![]);
    assert_eq!(select_devices(devices.clone(), None, None), devices);
    let profiles = vec![profile("node1", "device_c3", "desk"), profile("node2", "device_a1", "studio")];
    assert_eq!(select_profiles(profiles.clone(), None, Some("desk")), vec![profiles[0].clone()]);
    assert_eq!(select_profiles(profiles.clone(), Some("device_a1"), None), vec![profiles[1].clone()]);
}

#[test]
fn profiles_the_daemon_already_lists_are_not_repeated() {
    let devices = vec![device("device_a1", "studio", true)];
    let profiles = vec![profile("node1", "device_c3", "desk"), profile("node2", "device_a1", "studio"), profile("node3", "device_d4", "den")];
    assert_eq!(
        device_listing(&devices, &profiles),
        vec![ListingRow::Daemon(0), ListingRow::Configured(0), ListingRow::Configured(2)]
    );
    assert_eq!(device_listing(&vec![], &vec![]), vec![]);
}

#[test]
fn failed_probes_are_reported_by_kind() {
    assert_eq!(probe_status(ProbeFailure::Connect), "offline");
    assert_eq!(probe_status(ProbeFailure::PairedConnect), "offline");
    assert_eq!(probe_status(ProbeFailure::RemoteStatus(RemoteCode::PermissionDenied)), "unauthorized");
    assert_eq!(probe_status(ProbeFailure::RemoteStatus(RemoteCode::DeadlineExceeded)), "offline");
    assert_eq!(probe_status(ProbeFailure::RemoteStatus(RemoteCode::Other)), "error");
    assert_eq!(probe_status(ProbeFailure::ProfileEndpointMismatch), "invalid");
    assert_eq!(probe_status(ProbeFailure::Other), "error");
}
