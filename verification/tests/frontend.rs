use auv_cli::frontend::diagnostics_filter;
use auv_cli::frontend::{permission_check_summary, permission_recommendation, permission_status_line, verbosity, NativePermissions};

fn args(values: &[&str]) -> Vec<Option<String>> {
    values.iter().map(|v| Some(v.to_string())).collect()
}

#[test]
fn verbosity_counts_verbose_flags() {
    assert_eq!(verbosity(&args(&["devices", "list"])), 0);
    assert_eq!(verbosity(&args(&["-v", "devices", "--verbose", "-vv"])), 4);
    assert_eq!(verbosity(&args(&["-vx", "--", "-"])), 0);
    assert_eq!(verbosity(&vec![None, Some("-vvv".to_string())]), 3);
    let many = vec![Some(format!("-{}", "v".repeat(200))), Some(format!("-{}", "v".repeat(200)))];
    assert_eq!(verbosity(&many), 255);
}

#[test]
fn permission_statuses_are_labelled() {
    assert_eq!(permission_status_line("granted"), "[ok] granted");
    assert_eq!(permission_status_line("missing"), "[missing] missing");
    assert_eq!(permission_status_line("denied"), "[unknown] denied");
}

#[test]
fn permission_recommendations_name_what_is_missing() {
    assert_eq!(
        permission_recommendation("granted", "granted"),
        "AUV has the macOS permissions needed for capture and AX-backed automation."
    );
    assert_eq!(
        permission_recommendation("missing", "missing"),
        "Grant Accessibility and Screen Recording to the terminal or app that launches auv, then rerun this check."
    );
    assert_eq!(
        permission_recommendation("missing", "granted"),
        "Grant Accessibility to the terminal or app that launches auv, then rerun this check."
    );
    assert_eq!(
        permission_recommendation("granted", "missing"),
        "Grant Screen Recording to the terminal or app that launches auv, then rerun this check."
    );
    assert_eq!(
        permission_recommendation("unknown", "granted"),
        "Review the permission statuses above before running desktop automation."
    );
}

#[test]
fn the_permission_summary_warns_about_tcc_attribution() {
    let native = NativePermissions {
        accessibility: "granted".to_string(),
        screen_recording: "missing".to_string(),
        screen_capture_kit: "granted".to_string(),
    };
    let summary = permission_check_summary(&native);
    assert!(summary.all_ok);
    assert_eq!(summary.warnings.len(), 1);
    assert!(summary.warnings[0].starts_with("CGPreflightScreenCaptureAccess reports missing"));
    let missing = NativePermissions {
        accessibility: "missing".to_string(),
        screen_recording: "missing".to_string(),
        screen_capture_kit: "missing".to_string(),
    };
    let summary = permission_check_summary(&missing);
    assert!(!summary.all_ok);
    assert!(summary.warnings.is_empty());
}

#[test]
fn diagnostics_follow_the_verbosity_and_silence_dependencies() {
    assert_eq!(diagnostics_filter(0), None);
    assert_eq!(diagnostics_filter(1).as_deref(), Some("off,auv_cli=info"));
    assert_eq!(diagnostics_filter(2).as_deref(), Some("off,auv_cli=debug"));
    assert_eq!(diagnostics_filter(9).as_deref(), Some("off,auv_cli=trace"));
}
