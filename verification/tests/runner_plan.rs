use auv_cli::click::WireDuration;
use auv_cli::inputs::InvokeInputs;
use auv_cli::invoke::InvokeCommandInput;
use auv_cli::routing::{AxTextSelector, WireApplicationSelector, WireWindowMatch, WireWindowSelector};
use auv_cli::runner_plan::{runner_request, MediaCommand, RunnerRequest};

fn input(command_id: &str, target: Option<&str>, pairs: &[(&str, &str)]) -> InvokeCommandInput {
    let mut inputs = InvokeInputs::new();
    for (key, value) in pairs {
        inputs.insert(key.to_string(), value.to_string());
    }
    InvokeCommandInput {
        command_id: command_id.to_string(),
        target_application_id: target.map(str::to_string),
        inputs,
        dry_run: false,
    }
}

fn frontmost_main() -> WireWindowSelector {
    WireWindowSelector {
        application: Some(WireApplicationSelector::FrontmostApplication(true)),
        window: Some(WireWindowMatch::MainVisible(true)),
    }
}

#[test]
fn application_commands_plan_their_calls() {
    assert_eq!(
        runner_request(&input("app.activate", Some(" com.apple.Notes "), &[])),
        Ok(RunnerRequest::ActivateBundleId {
            bundle_id: "com.apple.Notes".to_string(),
            settle: WireDuration { seconds: 0, nanos: 150_000_000 },
        })
    );
    assert_eq!(runner_request(&input("app.probePermissions", None, &[])), Ok(RunnerRequest::ProbePermissions));
    assert_eq!(
        runner_request(&input("input.focusText", Some("com.apple.Notes"), &[("query", "Body")])),
        Ok(RunnerRequest::FocusText {
            app: "com.apple.Notes".to_string(),
            selector: AxTextSelector::Query("Body".to_string()),
        })
    );
}

#[test]
fn media_and_listing_commands_need_no_arguments() {
    assert_eq!(runner_request(&input("mediaControl.nowPlaying", None, &[])), Ok(RunnerRequest::GetNowPlaying));
    assert_eq!(runner_request(&input("mediaControl.next", None, &[])), Ok(RunnerRequest::ControlMedia(MediaCommand::NextTrack)));
    assert_eq!(
        runner_request(&input("mediaControl.togglePlayPause", None, &[])),
        Ok(RunnerRequest::ControlMedia(MediaCommand::TogglePlayPause))
    );
    assert_eq!(runner_request(&input("display.list", None, &[])), Ok(RunnerRequest::ListDisplays));
    assert_eq!(runner_request(&input("display.capture", None, &[])), Ok(RunnerRequest::CaptureDisplay));
    assert_eq!(runner_request(&input("window.list", None, &[])), Ok(RunnerRequest::ListWindows));
    assert_eq!(runner_request(&input("window.capture", None, &[])), Ok(RunnerRequest::CaptureWindow { window: frontmost_main() }));
}

#[test]
fn text_commands_carry_their_typed_arguments() {
    assert_eq!(
        runner_request(&input("window.findText", None, &[("query", "Save")])),
        Ok(RunnerRequest::FindWindowText { window: frontmost_main(), query: "Save".to_string() })
    );
    assert_eq!(
        runner_request(&input("window.clickText", None, &[("query", "Save"), ("index", "1")])),
        Ok(RunnerRequest::ClickWindowText { window: frontmost_main(), query: "Save".to_string(), index: 1 })
    );
    assert_eq!(
        runner_request(&input("screen.clickText", None, &[("query", "OK")])),
        Ok(RunnerRequest::ClickScreenText { query: "OK".to_string() })
    );
    assert_eq!(runner_request(&input("input.key", None, &[("key", "cmd+s")])), Ok(RunnerRequest::PressKey { key: "cmd+s".to_string() }));
    assert_eq!(
        runner_request(&input("input.clickWindowPoint", None, &[])),
        Ok(RunnerRequest::ClickWindowPoint { window: frontmost_main() })
    );
}

#[test]
fn missing_or_malformed_arguments_are_reported() {
    assert_eq!(
        runner_request(&input("screen.waitForText", None, &[])),
        Err("screen.waitForText omitted its typed query argument".to_string())
    );
    assert_eq!(
        runner_request(&input("input.pasteText", None, &[])),
        Err("input.pasteText omitted its typed text argument".to_string())
    );
    assert_eq!(
        runner_request(&input("window.clickText", None, &[("query", "Save"), ("index", "x")])),
        Err("window.clickText has invalid --index: invalid digit found in string".to_string())
    );
    assert_eq!(
        runner_request(&input("window.clickText", None, &[("index", "x")])),
        Err("window.clickText omitted its typed query argument".to_string())
    );
}
