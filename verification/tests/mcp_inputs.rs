use auv_cli::inputs::{mcp_command_inputs, InvokeInputs, InvokeNamespace};

fn pairs(values: &[(&str, &str)]) -> InvokeInputs {
    let mut inputs = InvokeInputs::new();
    for (key, value) in values {
        inputs.insert(key.to_string(), value.to_string());
    }
    inputs
}

#[test]
fn mcp_disables_incidental_overlays_but_preserves_explicit_overlay_operations() {
    let incidental = mcp_command_inputs(InvokeNamespace::Window, pairs(&[("overlay", "true")]));
    assert_eq!(incidental.get("overlay").map(String::as_str), Some("false"));

    let explicit = mcp_command_inputs(InvokeNamespace::Overlay, InvokeInputs::new());
    assert!(!explicit.contains_key("overlay"));
}

#[test]
fn mcp_keeps_the_other_inputs() {
    let result = mcp_command_inputs(InvokeNamespace::Screen, pairs(&[("x", "10"), ("y", "20")]));
    assert_eq!(result.get("x").map(String::as_str), Some("10"));
    assert_eq!(result.get("y").map(String::as_str), Some("20"));
    assert_eq!(result.get("overlay").map(String::as_str), Some("false"));
    assert_eq!(result.len(), 3);
}

#[test]
fn inserting_a_key_twice_keeps_the_last_value() {
    let mut inputs = pairs(&[("title", "a")]);
    inputs.insert("title".to_string(), "b".to_string());
    assert_eq!(inputs.len(), 1);
    assert_eq!(inputs.get("title").map(String::as_str), Some("b"));
    assert_eq!(inputs.get("missing"), None);
}
