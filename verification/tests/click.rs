use std::time::Duration;

use auv_cli::click::{
    driver_click_options_from_proto, selected_click_options, window_click_options, Click, ClickOptions, InputPolicy,
    WindowClickStrategy, WireClick, WireClickOptions, WireDuration, WireInputPolicy, WireWindowClickStrategy,
};
use auv_cli::inputs::InvokeInputs;
use auv_cli::invoke::InvokeCommandInput;

fn input(command_id: &str, pairs: &[(&str, &str)]) -> InvokeCommandInput {
    let mut inputs = InvokeInputs::new();
    for (key, value) in pairs {
        inputs.insert(key.to_string(), value.to_string());
    }
    InvokeCommandInput { command_id: command_id.to_string(), target_application_id: None, inputs, dry_run: false }
}

#[test]
fn local_clicks_default_to_a_single_background_click() {
    assert_eq!(window_click_options(&input("input.clickWindowPoint", &[])), Ok(ClickOptions::default()));
}

#[test]
fn local_clicks_accept_either_policy_spelling_and_repeat_counts() {
    let options = window_click_options(&input(
        "input.clickWindowPoint",
        &[("input-policy", "foreground_preferred"), ("click-count", "3"), ("click-interval-ms", "40")],
    ))
    .unwrap();
    assert_eq!(options.policy, InputPolicy::ForegroundPreferred);
    assert_eq!(options.click, Click::Repeated { count: 3, interval: Duration::from_millis(40) });
    assert_eq!(options.window_strategy, WindowClickStrategy::ChromiumCompatible);
    let double = window_click_options(&input("input.clickWindowPoint", &[("click-count", "2")])).unwrap();
    assert_eq!(double.click, Click::Double { interval: Duration::from_millis(75) });
}

#[test]
fn local_clicks_reject_bad_inputs() {
    assert_eq!(
        window_click_options(&input("input.clickWindowPoint", &[("input-policy", "sideways")])),
        Err("input.clickWindowPoint received invalid --input-policy \"sideways\"; expected background-only, background-preferred, or foreground-preferred".to_string())
    );
    assert_eq!(
        window_click_options(&input("input.clickWindowPoint", &[("click-count", "0")])),
        Err("input.clickWindowPoint requires --click-count to be between 1 and 255".to_string())
    );
    assert_eq!(
        window_click_options(&input("input.clickWindowPoint", &[("click-count", "256")])),
        Err("input.clickWindowPoint received invalid --click-count \"256\": number too large to fit in target type".to_string())
    );
}

#[test]
fn remote_clicks_carry_their_wire_options() {
    let options = selected_click_options(&input("window.click", &[("click-count", "2"), ("click-interval-ms", "1250")])).unwrap();
    assert_eq!(
        options,
        WireClickOptions {
            policy: WireInputPolicy::BackgroundPreferred,
            click: Some(WireClick { count: 2, interval: Some(WireDuration { seconds: 1, nanos: 250_000_000 }) }),
            window_strategy: WireWindowClickStrategy::ChromiumCompatible,
        }
    );
    let text = selected_click_options(&input("screen.clickText", &[])).unwrap();
    assert_eq!(text.policy, WireInputPolicy::ForegroundPreferred);
    assert_eq!(text.click, Some(WireClick { count: 1, interval: None }));
}

#[test]
fn remote_clicks_reject_bad_inputs() {
    assert_eq!(
        selected_click_options(&input("window.click", &[("input-policy", "background_only")])),
        Err("window.click has unknown --input-policy \"background_only\"".to_string())
    );
    assert_eq!(
        selected_click_options(&input("window.click", &[("click-count", "300")])),
        Err("window.click requires --click-count within 1..=255".to_string())
    );
    assert_eq!(
        selected_click_options(&input("window.click", &[("click-count", "2"), ("click-interval-ms", "0")])),
        Err("window.click requires a positive --click-interval-ms for repeated clicks".to_string())
    );
    assert_eq!(
        selected_click_options(&input("window.click", &[("click-count", "x")])),
        Err("window.click has invalid --click-count: invalid digit found in string".to_string())
    );
}

#[test]
fn wire_clicks_map_back_to_driver_clicks() {
    let wire = selected_click_options(&input("window.click", &[("input-policy", "background-only"), ("click-count", "3")])).unwrap();
    let options = driver_click_options_from_proto(&wire).unwrap();
    assert_eq!(options.policy, InputPolicy::BackgroundOnly);
    assert_eq!(options.click, Click::Repeated { count: 3, interval: Duration::from_millis(75) });
    let unspecified = WireClickOptions {
        policy: WireInputPolicy::Unspecified,
        click: None,
        window_strategy: WireWindowClickStrategy::PidTargeted,
    };
    assert_eq!(
        driver_click_options_from_proto(&unspecified),
        Ok(ClickOptions {
            policy: InputPolicy::BackgroundPreferred,
            click: Click::Single,
            window_strategy: WindowClickStrategy::PidTargeted,
        })
    );
}

#[test]
fn malformed_wire_clicks_are_refused() {
    let mut wire = WireClickOptions {
        policy: WireInputPolicy::BackgroundPreferred,
        click: Some(WireClick { count: 2, interval: None }),
        window_strategy: WireWindowClickStrategy::Unspecified,
    };
    assert_eq!(driver_click_options_from_proto(&wire), Err("repeated click omitted its interval".to_string()));
    wire.click = Some(WireClick { count: 2, interval: Some(WireDuration { seconds: -1, nanos: 0 }) });
    assert_eq!(driver_click_options_from_proto(&wire), Err("click interval must not be negative".to_string()));
    wire.click = Some(WireClick { count: 400, interval: Some(WireDuration { seconds: 0, nanos: 5 }) });
    assert_eq!(driver_click_options_from_proto(&wire), Err("click count 400 is outside 1..=255".to_string()));
}

#[test]
fn remote_click_intervals_come_back_as_the_requested_milliseconds() {
    let wire = selected_click_options(&input("window.click", &[("click-count", "2"), ("click-interval-ms", "1250")])).unwrap();
    let options = driver_click_options_from_proto(&wire).unwrap();
    assert_eq!(options.click, Click::Double { interval: std::time::Duration::from_millis(1250) });
    assert_eq!(options.policy, InputPolicy::BackgroundPreferred);
    let wire = selected_click_options(&input("window.click", &[("click-count", "4")])).unwrap();
    let options = driver_click_options_from_proto(&wire).unwrap();
    assert_eq!(options.click, Click::Repeated { count: 4, interval: std::time::Duration::from_millis(75) });
}

#[test]
fn unknown_wire_policy_and_strategy_values_are_refused() {
    let mut wire = WireClickOptions {
        policy: WireInputPolicy::Unrecognized(7),
        click: Some(WireClick { count: 2, interval: None }),
        window_strategy: WireWindowClickStrategy::Unrecognized(-2),
    };
    assert_eq!(driver_click_options_from_proto(&wire), Err("unknown InputPolicy value 7".to_string()));
    wire.policy = WireInputPolicy::ForegroundPreferred;
    assert_eq!(driver_click_options_from_proto(&wire), Err("repeated click omitted its interval".to_string()));
    wire.click = None;
    assert_eq!(driver_click_options_from_proto(&wire), Err("unknown WindowClickStrategy value -2".to_string()));
    wire.window_strategy = WireWindowClickStrategy::ChromiumCompatible;
    assert_eq!(driver_click_options_from_proto(&wire).unwrap().policy, InputPolicy::ForegroundPreferred);
}
