use auv_cli::input_action::{
    delivery_path, disturbance, input_action_from_proto, project_input_action, required_field, response_input_action, DisturbanceLevel, InputDeliveryPath, WireDeliveryPath,
    WireDisturbance, WireInputActionResult, WireInputAttempt,
};

fn action(selected_path: WireDeliveryPath, attempts: Vec<WireInputAttempt>) -> WireInputActionResult {
    WireInputActionResult {
        selected_path,
        attempts,
        mouse_disturbance: WireDisturbance::NoDisturbance,
        focus_disturbance: WireDisturbance::Temporary,
        clipboard_disturbance: WireDisturbance::Unknown,
    }
}

fn attempt(path: WireDeliveryPath, succeeded: bool, message: &str) -> WireInputAttempt {
    WireInputAttempt { path, succeeded, message: message.to_string() }
}

#[test]
fn wire_results_map_to_driver_results() {
    let wire = action(
        WireDeliveryPath::WindowTargetedMouse,
        vec![attempt(WireDeliveryPath::AxPress, false, "no action"), attempt(WireDeliveryPath::WindowTargetedMouse, true, "")],
    );
    let result = project_input_action(&wire).unwrap();
    assert_eq!(result.selected_path, InputDeliveryPath::WindowTargetedMouse);
    assert_eq!(result.attempts.len(), 2);
    assert_eq!(result.attempts[0].path, InputDeliveryPath::AxPress);
    assert!(!result.attempts[0].succeeded);
    assert_eq!(result.attempts[0].message, "no action");
    assert!(result.attempts[1].succeeded);
    assert!(!result.verified);
    assert_eq!(result.mouse_disturbance, DisturbanceLevel::NoDisturbance);
    assert_eq!(result.focus_disturbance, DisturbanceLevel::Temporary);
    assert_eq!(result.clipboard_disturbance, DisturbanceLevel::Unknown);
}

#[test]
fn unspecified_and_unknown_wire_values_are_refused() {
    assert_eq!(delivery_path(WireDeliveryPath::Unspecified), Err("InputDeliveryPath must not be unspecified".to_string()));
    assert_eq!(delivery_path(WireDeliveryPath::Unrecognized(42)), Err("unknown InputDeliveryPath value 42".to_string()));
    assert_eq!(delivery_path(WireDeliveryPath::Unrecognized(-3)), Err("unknown InputDeliveryPath value -3".to_string()));
    assert_eq!(disturbance(WireDisturbance::Unspecified), Err("DisturbanceLevel must not be unspecified".to_string()));
    assert_eq!(disturbance(WireDisturbance::Unrecognized(9)), Err("unknown DisturbanceLevel value 9".to_string()));
    assert_eq!(delivery_path(WireDeliveryPath::ClipboardPaste), Ok(InputDeliveryPath::ClipboardPaste));
}

#[test]
fn the_first_refused_field_names_the_error() {
    let wire = action(
        WireDeliveryPath::Noop,
        vec![attempt(WireDeliveryPath::Unrecognized(77), true, ""), attempt(WireDeliveryPath::Unspecified, true, "")],
    );
    assert_eq!(project_input_action(&wire).unwrap_err(), "unknown InputDeliveryPath value 77");
    let mut wire = action(WireDeliveryPath::Unspecified, Vec::new());
    wire.mouse_disturbance = WireDisturbance::Unspecified;
    assert_eq!(project_input_action(&wire).unwrap_err(), "InputDeliveryPath must not be unspecified");
    let mut wire = action(WireDeliveryPath::Noop, Vec::new());
    wire.focus_disturbance = WireDisturbance::Unrecognized(i32::MIN);
    assert_eq!(project_input_action(&wire).unwrap_err(), "unknown DisturbanceLevel value -2147483648");
}

#[test]
fn the_driver_validation_decides_last() {
    let wire = action(WireDeliveryPath::AxPress, vec![attempt(WireDeliveryPath::AxPress, true, "pressed")]);
    let accepted = input_action_from_proto(&wire, |_: &auv_cli::input_action::InputActionResult| Ok(())).unwrap();
    assert_eq!(accepted.selected_path, InputDeliveryPath::AxPress);
    assert_eq!(accepted.attempts.len(), 1);
    let refused = input_action_from_proto(&wire, |result: &auv_cli::input_action::InputActionResult| {
        if result.attempts.iter().any(|a| a.succeeded) { Err("selected path has no successful attempt".to_string()) } else { Ok(()) }
    });
    assert_eq!(refused, Err("selected path has no successful attempt".to_string()));
    let unspecified = action(WireDeliveryPath::Unspecified, Vec::new());
    let never_called = input_action_from_proto(&unspecified, |_: &auv_cli::input_action::InputActionResult| -> Result<(), String> {
        panic!("validation runs only on a projected result")
    });
    assert_eq!(never_called, Err("InputDeliveryPath must not be unspecified".to_string()));
}

#[test]
fn runner_responses_must_carry_their_fields() {
    assert_eq!(required_field(Some(3u8), "ClickWindowPoint", "WindowPoint"), Ok(3));
    assert_eq!(
        required_field(None::<u8>, "ClickWindowPoint", "Window"),
        Err("ClickWindowPoint response omitted Window".to_string())
    );
    let ok = |_: &auv_cli::input_action::InputActionResult| Ok(());
    assert_eq!(
        response_input_action(None, "TypeText", ok),
        Err("TypeText response omitted InputActionResult".to_string())
    );
    let wire = action(WireDeliveryPath::ClipboardPaste, Vec::new());
    let result = response_input_action(Some(wire), "PasteText", ok).unwrap();
    assert_eq!(result.selected_path, InputDeliveryPath::ClipboardPaste);
}
