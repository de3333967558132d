use auv_cli::routing::{invoke_route, InvokeRoute};
use auv_cli::routing::typed_argument;
use auv_cli::routing::{ax_text_selector, AxTextSelector};
use auv_cli::routing::{activation_target, check_activation_echo, text_wait_timeout};
use auv_cli::inputs::InvokeInputs;
use auv_cli::invoke::InvokeCommandInput;
use auv_cli::routing::{
    check_selected_target, selected_text_match_index, selected_window_selector, WireApplicationSelector, WireWindowMatch,
};

fn input(command_id: &str, target: Option<&str>, pairs: &[(&str, &str)]) -> InvokeCommandInput {
    let mut inputs = InvokeInputs::new();
    for (key, value) in pairs {
        inputs.insert(key.to_string(), value.to_string());
    }
    InvokeCommandInput {
        command_id: command_id.to_string(),
        target_application_id: target.map(str::to_string),
        inputs,
        dry_run: false,
    }
}

fn target(value: &str) -> Option<String> {
    Some(value.to_string())
}

#[test]
fn targets_are_checked_per_command_family() {
    assert_eq!(check_selected_target("app.activate", &target("com.apple.TextEdit")), Ok(()));
    assert_eq!(check_selected_target("app.activate", &target("  ")), Err("app.activate requires --target".to_string()));
    assert_eq!(check_selected_target("app.probePermissions", &target("x")), Err("app.probePermissions cannot use --target".to_string()));
    assert_eq!(check_selected_target("input.focusText", &None), Err("input.focusText requires --target".to_string()));
    assert_eq!(
        check_selected_target("mediaControl.nowPlaying", &target("x")),
        Err("mediaControl.nowPlaying cannot use --target; the macOS now-playing state is system-wide".to_string())
    );
    assert_eq!(
        check_selected_target("mediaControl.play", &target("x")),
        Err("mediaControl.play cannot use --target; macOS media controls are system-wide".to_string())
    );
    assert_eq!(
        check_selected_target("overlay.outline", &target("x")),
        Err("overlay.outline cannot use --target; overlays use global screen coordinates".to_string())
    );
    assert_eq!(
        check_selected_target("input.key", &target("x")),
        Err("input.key cannot use --target until typed input target activation is available".to_string())
    );
    assert_eq!(
        check_selected_target("screen.findText", &target("x")),
        Err("screen.findText cannot use --target until typed target activation is available".to_string())
    );
    assert_eq!(check_selected_target("window.list", &target("x")), Ok(()));
}

#[test]
fn window_selectors_name_the_target_and_title() {
    let selector = selected_window_selector(&input("window.click", Some("com.apple.Notes"), &[("title", "Notes")]));
    assert_eq!(selector.application, Some(WireApplicationSelector::ApplicationBundleId("com.apple.Notes".to_string())));
    assert_eq!(selector.window, Some(WireWindowMatch::TitleContains("Notes".to_string())));
    let frontmost = selected_window_selector(&input("window.click", None, &[("title", " ")]));
    assert_eq!(frontmost.application, Some(WireApplicationSelector::FrontmostApplication(true)));
    assert_eq!(frontmost.window, Some(WireWindowMatch::MainVisible(true)));
}

#[test]
fn text_matches_are_picked_by_index() {
    assert_eq!(selected_text_match_index(&input("window.clickText", None, &[])), Ok(0));
    assert_eq!(selected_text_match_index(&input("window.clickText", None, &[("index", "2")])), Ok(2));
    assert_eq!(
        selected_text_match_index(&input("window.clickText", None, &[("index", "-1")])),
        Err("window.clickText has invalid --index: invalid digit found in string".to_string())
    );
}

#[test]
fn typed_arguments_are_required() {
    assert_eq!(typed_argument(&input("window.findText", None, &[("query", "Save")]), "query"), Ok("Save".to_string()));
    assert_eq!(
        typed_argument(&input("window.findText", None, &[]), "query"),
        Err("window.findText omitted its typed query argument".to_string())
    );
    assert_eq!(
        typed_argument(&input("input.typeText", None, &[]), "text"),
        Err("input.typeText omitted its typed text argument".to_string())
    );
}

#[test]
fn focus_selectors_prefer_an_explicit_path() {
    assert_eq!(
        ax_text_selector(&input("input.focusText", None, &[("candidate", "0/1/2"), ("query", "Body")])),
        AxTextSelector::Path("0/1/2".to_string())
    );
    assert_eq!(
        ax_text_selector(&input("input.focusText", None, &[("candidate", " "), ("query", "Body")])),
        AxTextSelector::Query("Body".to_string())
    );
    assert_eq!(ax_text_selector(&input("input.focusText", None, &[])), AxTextSelector::Query(String::new()));
}

#[test]
fn activation_checks_its_target_and_answer() {
    assert_eq!(activation_target(&input("app.activate", Some("  com.apple.Notes "), &[])), Some("com.apple.Notes".to_string()));
    assert_eq!(activation_target(&input("app.activate", None, &[])), None);
    assert_eq!(check_activation_echo("com.apple.Notes", "com.apple.Notes"), Ok(()));
    assert_eq!(
        check_activation_echo("com.apple.TextEdit", "com.apple.Notes"),
        Err("ActivateBundleId response changed the requested bundle id".to_string())
    );
    assert_eq!(text_wait_timeout("screen.waitForText", "Done"), "screen.waitForText did not find text \"Done\" before timeout");
}

#[test]
fn front_checks_and_overlay_dry_runs_never_reach_a_runner() {
    let target = Some("com.apple.Notes".to_string());
    assert!(matches!(
        invoke_route("overlay.status", &target, false, Ok(()), Ok(true)),
        InvokeRoute::Refused(ref e) if e == "overlay.status cannot use --target; overlays use global screen coordinates"
    ));
    assert!(matches!(invoke_route("app.activate", &None, false, Ok(()), Ok(true)), InvokeRoute::Refused(_)));
    assert!(matches!(invoke_route("overlay.status", &None, true, Ok(()), Err("unread".to_string())), InvokeRoute::LocalOverlay));
    assert!(matches!(invoke_route("overlay.status", &None, false, Ok(()), Ok(false)), InvokeRoute::LocalOverlay));
    assert!(matches!(invoke_route("overlay.status", &None, false, Ok(()), Ok(true)), InvokeRoute::Runner));
    assert!(matches!(
        invoke_route("overlay.status", &None, true, Err("bad plan".to_string()), Ok(true)),
        InvokeRoute::Refused(ref e) if e == "bad plan"
    ));
    assert!(matches!(
        invoke_route("overlay.status", &None, false, Ok(()), Err("bad flag".to_string())),
        InvokeRoute::Refused(ref e) if e == "bad flag"
    ));
    assert!(matches!(invoke_route("display.capture", &None, true, Err("ignored".to_string()), Ok(true)), InvokeRoute::Runner));
}
