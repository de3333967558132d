use auv_cli::click::WireDuration;
use auv_cli::devices::{
    connect_endpoint, existing_profile, inherited_device_ids, paired_remote_device, pairing_display_name, pairing_profile_name,
    reject_run_for_create, resolve_paired_device, runner_grace_period, token_ttl, ConfiguredProfile, DeviceSummary,
    PairedDeviceRecord,
};

fn record(pair_id: &str, label: &str) -> PairedDeviceRecord {
    PairedDeviceRecord { pair_id: pair_id.to_string(), label: label.to_string() }
}

fn summary(id: Option<&str>, name: &str, local: bool) -> DeviceSummary {
    DeviceSummary { device_id: id.map(str::to_string), name: name.to_string(), platform: "DEVICE_PLATFORM_MACOS".to_string(), local }
}

#[test]
fn paired_devices_resolve_by_id_or_unique_label() {
    let records = vec![record("pair_b", "studio"), record("pair_a", "studio"), record("pair_c", "laptop")];
    assert_eq!(resolve_paired_device(" pair_c ", &records), Ok("pair_c".to_string()));
    assert_eq!(resolve_paired_device("laptop", &records), Ok("pair_c".to_string()));
    assert_eq!(resolve_paired_device("   ", &records), Err("Device selector must not be empty".to_string()));
    assert_eq!(resolve_paired_device("desk", &records), Err("unknown paired Device \"desk\"".to_string()));
}

#[test]
fn an_ambiguous_label_lists_the_candidate_ids_in_order() {
    let records = vec![record("pair_b", "studio"), record("pair_a", "studio"), record("pair_c", "laptop")];
    assert_eq!(
        resolve_paired_device("studio", &records),
        Err("paired Device name \"studio\" is ambiguous; use one of these stable IDs: pair_a, pair_b".to_string())
    );
}

#[test]
fn pairing_needs_exactly_one_caller_local_device() {
    let one = vec![summary(Some("device_remote"), "Studio", true), summary(Some("device_x"), "X", false)];
    assert_eq!(paired_remote_device(&one), Ok(("device_remote".to_string(), "Studio".to_string())));
    let two = vec![summary(Some("a"), "A", true), summary(Some("b"), "B", true)];
    assert_eq!(
        paired_remote_device(&two),
        Err("paired endpoint returned 2 caller-local Devices; expected exactly one".to_string())
    );
    let unnamed = vec![summary(Some(""), "A", true)];
    assert_eq!(paired_remote_device(&unnamed), Err("paired endpoint returned a Device without an ID".to_string()));
    assert_eq!(paired_remote_device(&vec![summary(None, "A", true)]), Err("paired endpoint returned a Device without an ID".to_string()));
}

#[test]
fn pairing_profile_names_fall_back_in_order() {
    let profiles = vec![ConfiguredProfile {
        config_profile: "node1".to_string(),
        device_id: "device_remote".to_string(),
        device_name: "Studio".to_string(),
        endpoint: "http://10.0.0.2:9847".to_string(),
    }];
    assert_eq!(existing_profile(&profiles, "device_remote"), Some("node1".to_string()));
    assert_eq!(existing_profile(&profiles, "device_other"), None);
    assert_eq!(pairing_profile_name(Some("mine".to_string()), Some("node1".to_string()), "Studio", "device_remote"), "mine");
    assert_eq!(pairing_profile_name(None, Some("node1".to_string()), "Studio", "device_remote"), "node1");
    assert_eq!(pairing_profile_name(None, None, "Studio", "device_remote"), "Studio");
    assert_eq!(pairing_profile_name(None, None, "", "device_remote_0123"), "device_remot");
    assert_eq!(pairing_display_name("", "node1"), "node1");
    assert_eq!(pairing_display_name("Studio", "node1"), "Studio");
}

#[test]
fn durations_saturate_or_are_refused_on_the_wire() {
    assert_eq!(token_ttl(None), None);
    assert_eq!(token_ttl(Some(60)), Some(WireDuration { seconds: 60, nanos: 0 }));
    assert_eq!(token_ttl(Some(u64::MAX)), Some(WireDuration { seconds: i64::MAX, nanos: 0 }));
    assert_eq!(runner_grace_period(Some(5)), Ok(Some(WireDuration { seconds: 5, nanos: 0 })));
    assert_eq!(runner_grace_period(None), Ok(None));
    assert_eq!(runner_grace_period(Some(u64::MAX)), Err("--timeout exceeds the protobuf duration range".to_string()));
}

#[test]
fn a_new_run_inherits_the_selected_device_unless_devices_are_named() {
    assert_eq!(inherited_device_ids(&vec![], &Some("device_a".to_string())), vec!["device_a".to_string()]);
    assert!(inherited_device_ids(&vec![], &None).is_empty());
    let named = vec!["device_b".to_string(), "device_c".to_string()];
    assert_eq!(inherited_device_ids(&named, &Some("device_a".to_string())), named);
    assert_eq!(reject_run_for_create(&None), Ok(()));
    assert_eq!(
        reject_run_for_create(&Some("run_a".to_string())),
        Err("root --run cannot be combined with `auv run create`".to_string())
    );
}

#[test]
fn pair_connect_needs_an_endpoint() {
    assert_eq!(connect_endpoint(Some("http://10.0.0.2:9847".to_string())), Ok("http://10.0.0.2:9847".to_string()));
    assert_eq!(connect_endpoint(None), Err("pair connect requires --endpoint http://HOST:PORT".to_string()));
}
