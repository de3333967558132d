use auv_cli::invoke::{focus_text_report, AxFocusSummary};
use auv_cli::inputs::InvokeInputs;
use auv_cli::invoke::{
    optional_bool, optional_u64, reject_target_activation, validation_only_output, InvokeCommandInput, OverlayStatus,
};

fn input(command_id: &str, target: Option<&str>, pairs: &[(&str, &str)]) -> InvokeCommandInput {
    let mut inputs = InvokeInputs::new();
    for (key, value) in pairs {
        inputs.insert(key.to_string(), value.to_string());
    }
    InvokeCommandInput {
        command_id: command_id.to_string(),
        target_application_id: target.map(str::to_string),
        inputs,
        dry_run: true,
    }
}

#[test]
fn optional_inputs_fall_back_to_their_defaults() {
    let plain = input("overlay.status", None, &[]);
    assert_eq!(optional_u64(&plain, "width", 7), Ok(7));
    assert_eq!(optional_bool(&plain, "label-visible", false), Ok(false));
    let given = input("overlay.status", None, &[("width", "120"), ("label-visible", "true")]);
    assert_eq!(optional_u64(&given, "width", 7), Ok(120));
    assert_eq!(optional_bool(&given, "label-visible", false), Ok(true));
}

#[test]
fn malformed_optional_inputs_name_the_input() {
    let bad = input("overlay.status", None, &[("width", "wide"), ("label-visible", "yes")]);
    assert_eq!(
        optional_u64(&bad, "width", 7),
        Err("overlay.status received invalid --width value \"wide\": invalid digit found in string".to_string())
    );
    assert_eq!(
        optional_bool(&bad, "label-visible", false),
        Err("overlay.status received invalid --label-visible value \"yes\": provided string was not `true` or `false`".to_string())
    );
}

#[test]
fn foreground_input_refuses_an_explicit_target() {
    assert_eq!(reject_target_activation(&input("input.typeText", None, &[]), "input.typeText"), Ok(()));
    assert_eq!(
        reject_target_activation(&input("input.typeText", Some("com.apple.Notes"), &[]), "input.typeText"),
        Err("input.typeText cannot use --target until typed input target activation is available".to_string())
    );
}

#[test]
fn reports_describe_delivery_and_overlays() {
    let report = validation_only_output();
    assert_eq!(report.fields.len(), 2);
    assert_eq!((report.fields[0].label.as_str(), report.fields[0].value.as_str()), ("Delivery", "not_performed"));
    assert_eq!((report.fields[1].label.as_str(), report.fields[1].value.as_str()), ("Verification", "validation_only"));
    assert_eq!(OverlayStatus::Disabled.report_field().value, "disabled");
    assert_eq!(OverlayStatus::Shown { layers: 3 }.report_field().value, "shown (3 layers)");
    let unavailable = OverlayStatus::Unavailable { reason: "no display".to_string() }.report_field();
    assert_eq!((unavailable.label.as_str(), unavailable.value.as_str()), ("Overlay", "unavailable: no display"));
}

#[test]
fn focus_reports_name_the_candidate_or_the_query() {
    let result = AxFocusSummary {
        app: "com.apple.Notes".to_string(),
        query: "Body".to_string(),
        path: "0/2/1".to_string(),
        role: "AXTextArea".to_string(),
        selected_path: "ax_focus".to_string(),
    };
    let lines = |candidate: &str| -> Vec<(String, String)> {
        focus_text_report(&result, candidate).fields.into_iter().map(|f| (f.label, f.value)).collect()
    };
    let by_query = lines(" ");
    assert_eq!(by_query[2], ("Query".to_string(), "Body".to_string()));
    assert_eq!(by_query.len(), 7);
    assert_eq!(by_query[6].1, "delivery_only; focused element was not read back after AX delivery");
    let by_path = lines("0/2/1");
    assert_eq!(by_path[2], ("Candidate".to_string(), "0/2/1".to_string()));
    assert_eq!(by_path[5], ("Focus method".to_string(), "ax_focus".to_string()));
}
