use auv_cli::ids::{
    compact_id, id_matches, resolve_id, short_enum_name, short_id, validate_device_argument, validate_run_argument,
    validate_run_device, validate_runner_device,
};

#[test]
fn enum_names_are_shortened_for_display() {
    assert_eq!(short_enum_name("RUNNER_LIFECYCLE_UNLESS_IDLE", "RUNNER_LIFECYCLE_"), "unless-idle");
    assert_eq!(short_enum_name("ONLINE", "DEVICE_STATUS_"), "online");
}

#[test]
fn identifiers_have_compact_and_short_forms() {
    assert_eq!(compact_id("run_019fb919-3a0c-73d2-a06e-9f94a150ccfb"), "019fb9193a0c73d2a06e9f94a150ccfb");
    assert_eq!(compact_id("plain-id"), "plainid");
    assert_eq!(short_id("run_019fb919-3a0c-73d2-a06e-9f94a150ccfb"), "019fb9193a0c");
    assert_eq!(short_id("run_ab"), "ab");
}

#[test]
fn selectors_match_exactly_or_by_compact_prefix() {
    assert!(id_matches("run_019fb919-3a0c", "run_019fb919-3a0c"));
    assert!(id_matches("run_019fb919-3a0c", "019f-b9"));
    assert!(!id_matches("run_019fb919-3a0c", "3a0c"));
}

#[test]
fn resolving_an_identifier_needs_exactly_one_match() {
    let values = vec!["run_aaa1".to_string(), "run_aab2".to_string(), "run_bbb3".to_string()];
    assert_eq!(resolve_id("Run", "bb", &values), Ok("run_bbb3".to_string()));
    assert_eq!(resolve_id("Run", "aa", &values), Err("ambiguous Run ID prefix \"aa\"; provide more characters".to_string()));
    assert_eq!(resolve_id("Run", "zz", &values), Err("unknown Run ID \"zz\"".to_string()));
}

#[test]
fn explicit_arguments_must_agree_with_the_root_selection() {
    assert_eq!(validate_run_argument("run_a", &None), Ok(()));
    assert_eq!(validate_run_argument("a", &Some("run_a".to_string())), Ok(()));
    assert_eq!(
        validate_run_argument("run_b", &Some("run_a".to_string())),
        Err("Run argument \"run_b\" conflicts with root --run".to_string())
    );
    assert_eq!(
        validate_device_argument("device_b", &Some("device_a".to_string())),
        Err("Device argument \"device_b\" conflicts with root Device selection".to_string())
    );
    assert_eq!(validate_device_argument("device_a", &Some("device_a".to_string())), Ok(()));
}

#[test]
fn resources_must_belong_to_the_selected_device() {
    let devices = vec!["device_a".to_string(), "device_b".to_string()];
    assert_eq!(validate_run_device(&devices, &Some("device_b".to_string())), Ok(()));
    assert_eq!(validate_run_device(&devices, &None), Ok(()));
    assert_eq!(
        validate_run_device(&devices, &Some("device_c".to_string())),
        Err("Run is not attached to selected Device \"device_c\"".to_string())
    );
    assert_eq!(validate_runner_device(&Some("device_a".to_string()), &Some("device_a".to_string())), Ok(()));
    assert_eq!(
        validate_runner_device(&Some("device_a".to_string()), &Some("device_b".to_string())),
        Err("Runner is not owned by selected Device \"device_b\"".to_string())
    );
}
