use std::time::Duration;

use auv_cli::invoke::{auto_removal_delay, show_options, InvokeCommandInput, DEFAULT_COMMAND_HOLD_MS, DEFAULT_COMMAND_MOTION_MS};
use auv_cli::inputs::InvokeInputs;
use auv_cli::overlay::{Easing, LifecycleOptions, MotionOptions, Removal, ShowOptions, DEFAULT_AUTO_REMOVAL_MS, DEFAULT_MOTION_MS};

fn input(command_id: &str, pairs: &[(&str, &str)]) -> InvokeCommandInput {
    let mut inputs = InvokeInputs::new();
    for (key, value) in pairs {
        inputs.insert(key.to_string(), value.to_string());
    }
    InvokeCommandInput { command_id: command_id.to_string(), target_application_id: None, inputs, dry_run: false }
}

#[test]
fn show_options_shortcuts_build_the_nested_policies() {
    let options = ShowOptions::new()
        .with_motion_ease(Duration::from_millis(480), Easing::EaseInOutExpo)
        .with_auto_removal_after(Duration::from_millis(240));

    assert_eq!(options.motion().duration(), Duration::from_millis(480));
    assert_eq!(options.motion().easing(), Easing::EaseInOutExpo);
    assert_eq!(options.lifecycle().removal(), Removal::AutoAfter(Duration::from_millis(240)));
}

#[test]
fn show_options_accept_complete_motion_and_lifecycle_policies() {
    let motion = MotionOptions::new().with_duration(Duration::from_millis(80));
    let lifecycle = LifecycleOptions::manual();
    let options = ShowOptions::new().with_motion_options(motion).with_lifecycle_options(lifecycle);

    assert_eq!(options.motion(), motion);
    assert_eq!(options.lifecycle(), lifecycle);
}

#[test]
fn default_policies_animate_and_remove_automatically() {
    let options = ShowOptions::new();
    assert_eq!(options.motion().duration(), Duration::from_millis(DEFAULT_MOTION_MS));
    assert_eq!(options.motion().easing(), Easing::default());
    assert_eq!(options.lifecycle().removal(), Removal::AutoAfter(Duration::from_millis(DEFAULT_AUTO_REMOVAL_MS)));
    assert_eq!(ShowOptions::default(), ShowOptions::new());
    assert_eq!(MotionOptions::default(), MotionOptions::new());
    assert_eq!(LifecycleOptions::default(), LifecycleOptions::new());
    assert_eq!(LifecycleOptions::manual().removal(), Removal::Manual);
}

#[test]
fn motion_and_lifecycle_settings_commute() {
    let motion = MotionOptions::new().with_easing(Easing::EaseInOutExpo).with_duration(Duration::from_millis(10));
    let lifecycle = LifecycleOptions::new().with_auto_removal_after(Duration::from_millis(99));
    let a = ShowOptions::new().with_motion_options(motion).with_lifecycle_options(lifecycle);
    let b = ShowOptions::new().with_lifecycle_options(lifecycle).with_motion_options(motion);
    assert_eq!(a, b);
}

#[test]
fn the_last_setting_wins() {
    let options = ShowOptions::new()
        .with_auto_removal_after(Duration::from_millis(5))
        .with_lifecycle_options(LifecycleOptions::manual());
    assert_eq!(options.lifecycle().removal(), Removal::Manual);
    let motion = MotionOptions::new().with_duration(Duration::from_millis(1)).with_duration(Duration::from_millis(2));
    assert_eq!(motion.duration(), Duration::from_millis(2));
}

#[test]
fn overlay_commands_default_their_show_policy() {
    let options = show_options(&input("overlay.outline", &[])).unwrap();
    assert_eq!(options.motion().duration(), Duration::from_millis(DEFAULT_COMMAND_MOTION_MS));
    assert_eq!(options.motion().easing(), Easing::EaseInOutExpo);
    assert_eq!(auto_removal_delay(options), Duration::from_millis(DEFAULT_COMMAND_HOLD_MS));
}

#[test]
fn overlay_commands_read_their_durations() {
    let options =
        show_options(&input("overlay.outline", &[("motion-duration-ms", "15"), ("hold-duration-ms", "700")])).unwrap();
    assert_eq!(options.motion().duration(), Duration::from_millis(15));
    assert_eq!(auto_removal_delay(options), Duration::from_millis(700));
    assert_eq!(auto_removal_delay(ShowOptions::new().with_lifecycle_options(LifecycleOptions::manual())), Duration::ZERO);
}

#[test]
fn overlay_commands_reject_a_malformed_duration() {
    let error = show_options(&input("overlay.cursor", &[("hold-duration-ms", "soon")])).unwrap_err();
    assert_eq!(error, "overlay.cursor received invalid --hold-duration-ms value \"soon\": invalid digit found in string");
}
