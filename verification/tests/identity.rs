use auv_cli::identity::{client_device_id, random_identity, tracing_run_identity};

#[test]
fn selected_control_run_and_tracing_run_share_one_uuid_identity() {
    assert_eq!(
        tracing_run_identity(Some("019fb9193a0c73d2a06e9f94a150ccfb")).unwrap().unwrap(),
        "019fb919-3a0c-73d2-a06e-9f94a150ccfb"
    );
}

#[test]
fn malformed_selected_control_run_is_not_silently_recorded_as_another_run() {
    let error = tracing_run_identity(Some("external-run")).expect_err("malformed selected Run must fail closed");
    assert!(error.contains("cannot be projected"));
}

#[test]
fn legacy_run_prefix_projects_to_the_same_identity() {
    let plain = tracing_run_identity(Some("019fb919-3a0c-73d2-a06e-9f94a150ccfb")).unwrap();
    let prefixed = tracing_run_identity(Some("run_019fb919-3a0c-73d2-a06e-9f94a150ccfb")).unwrap();
    assert_eq!(plain, prefixed);
    assert_eq!(plain.unwrap(), "019fb919-3a0c-73d2-a06e-9f94a150ccfb");
}

#[test]
fn no_selected_run_starts_a_fresh_identity() {
    assert_eq!(tracing_run_identity(None), Ok(None));
}

#[test]
fn projection_errors_quote_the_selected_run() {
    let error = tracing_run_identity(Some("run_x")).unwrap_err();
    assert!(error.starts_with("selected Run ID \"run_x\" cannot be projected into the tracing Run identity: "));
}

#[test]
fn random_identities_are_64_lowercase_hex_digits() {
    let first = random_identity().unwrap();
    let second = random_identity().unwrap();
    for identity in [&first, &second] {
        assert_eq!(identity.len(), 64);
        assert!(identity.chars().all(|c| c.is_ascii_digit() || ('a'..='f').contains(&c)));
    }
    assert_ne!(first, second);
}

#[test]
fn a_given_client_identity_is_kept() {
    assert_eq!(client_device_id(Some("client-1".to_string())), Ok("client-1".to_string()));
    assert_eq!(client_device_id(None).unwrap().len(), 64);
}

#[test]
fn run_ids_of_no_uuid_length_are_refused() {
    let error = tracing_run_identity(Some("external-run")).unwrap_err();
    assert!(error.starts_with("selected Run ID \"external-run\" cannot be projected into the tracing Run identity: "));
    assert!(tracing_run_identity(Some("run_abc")).is_err());
}
