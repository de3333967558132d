//! The first request a typed command sends to its selected Runner, once
//! its target is checked and the Runner is routed: which service call it
//! makes, with which arguments, or the input it lacks.

use vstd::prelude::*;
use crate::click::WireDuration;
use crate::inputs::lookup;
use crate::invoke::InvokeCommandInput;
use crate::parse::{decimal_value, is_unsigned_decimal, usize_parse_error_text};
use crate::routing::{
    activation_target, ax_text_selector, selected_text_match_index, selected_window_selector, typed_argument,
    AxTextSelector, WireApplicationSelector, WireWindowMatch, WireWindowSelector,
};
use crate::text::{is_blank, text_eq, trimmed};

verus! {

/// A system media control.
#[derive(Clone, Copy, Debug, PartialEq, Eq)]
pub enum MediaCommand {
    Play,
    Pause,
    TogglePlayPause,
    NextTrack,
    PreviousTrack,
}

/// The first call a command makes on its Runner.
#[derive(Clone, Debug, PartialEq, Eq)]
pub enum RunnerRequest {
    ActivateBundleId { bundle_id: String, settle: WireDuration },
    ProbePermissions,
    FocusText { app: String, selector: AxTextSelector },
    GetNowPlaying,
    ControlMedia(MediaCommand),
    ListDisplays,
    CaptureDisplay,
    ListWindows,
    CaptureWindow { window: WireWindowSelector },
    FindWindowText { window: WireWindowSelector, query: String },
    WaitForWindowText { window: WireWindowSelector, query: String },
    ClickWindowText { window: WireWindowSelector, query: String, index: usize },
    FindDisplayText { query: String },
    WaitForDisplayText { query: String },
    ClickScreenText { query: String },
    TypeText { text: String },
    PasteText { text: String },
    PressKey { key: String },
    ClickWindowPoint { window: WireWindowSelector },
}

/// The commands whose first Runner call is planned here. Overlay commands
/// are planned by the overlay adapter and `screen.captureRegion` first
/// decodes a floating-point region, so neither is among them.
pub open spec fn is_planned_command(id: Seq<char>) -> bool {
    ||| id == "app.activate"@
    ||| id == "app.probePermissions"@
    ||| id == "input.focusText"@
    ||| id == "input.axFocusText"@
    ||| id == "mediaControl.nowPlaying"@
    ||| id == "mediaControl.play"@
    ||| id == "mediaControl.pause"@
    ||| id == "mediaControl.togglePlayPause"@
    ||| id == "mediaControl.next"@
    ||| id == "mediaControl.previous"@
    ||| id == "display.list"@
    ||| id == "display.capture"@
    ||| id == "window.list"@
    ||| id == "window.capture"@
    ||| id == "window.findText"@
    ||| id == "window.waitForText"@
    ||| id == "window.clickText"@
    ||| id == "screen.findText"@
    ||| id == "screen.waitForText"@
    ||| id == "screen.clickText"@
    ||| id == "input.typeText"@
    ||| id == "input.pasteText"@
    ||| id == "input.key"@
    ||| id == "input.clickWindowPoint"@
}

/// The window a command addresses: the target application's bundle id, or
/// the frontmost application; a window whose title contains the non-blank
/// `title` input, or the main visible window.
pub open spec fn addresses_window(input: InvokeCommandInput, selector: WireWindowSelector) -> bool {
    &&& match input.target_application_id {
        Some(target) => selector.application matches Some(WireApplicationSelector::ApplicationBundleId(b)) && b@ == target@,
        None => selector.application == Some(WireApplicationSelector::FrontmostApplication(true)),
    }
    &&& match lookup(input.inputs@, "title"@) {
        Some(title) => if is_blank(title) {
            selector.window == Some(WireWindowMatch::MainVisible(true))
        } else {
            selector.window matches Some(WireWindowMatch::TitleContains(t)) && t@ == title
        },
        None => selector.window == Some(WireWindowMatch::MainVisible(true)),
    }
}

/// The error of a command that lacks a typed argument.
pub open spec fn omitted_text(command_id: Seq<char>, name: Seq<char>) -> Seq<char> {
    command_id + " omitted its typed "@ + name + " argument"@
}

/// The typed argument `name`, or the error naming it.
pub open spec fn argument_result(input: InvokeCommandInput, name: Seq<char>) -> Result<Seq<char>, Seq<char>> {
    match lookup(input.inputs@, name) {
        Some(v) => Ok(v),
        None => Err(omitted_text(input.command_id@, name)),
    }
}

/// The first Runner call of a planned command, or the input it lacks.
pub open spec fn planned_request(input: InvokeCommandInput, r: Result<RunnerRequest, String>) -> bool {
    let id = input.command_id@;
    if id == "app.activate"@ {
        r matches Ok(RunnerRequest::ActivateBundleId { bundle_id, settle }) && bundle_id@ == trimmed(
            input.target_application_id->0@,
        ) && settle == (WireDuration { seconds: 0, nanos: 150_000_000 })
    } else if id == "app.probePermissions"@ {
        r == Ok::<RunnerRequest, String>(RunnerRequest::ProbePermissions)
    } else if id == "input.focusText"@ || id == "input.axFocusText"@ {
        r matches Ok(RunnerRequest::FocusText { app, selector }) && app@ == input.target_application_id->0@ && match lookup(
            input.inputs@,
            "candidate"@,
        ) {
            Some(candidate) if !is_blank(candidate) => selector matches AxTextSelector::Path(p) && p@ == candidate,
            _ => selector matches AxTextSelector::Query(q) && q@ == (match lookup(input.inputs@, "query"@) {
                Some(query) => query,
                None => Seq::empty(),
            }),
        }
    } else if id == "mediaControl.nowPlaying"@ {
        r == Ok::<RunnerRequest, String>(RunnerRequest::GetNowPlaying)
    } else if id == "mediaControl.play"@ {
        r == Ok::<RunnerRequest, String>(RunnerRequest::ControlMedia(MediaCommand::Play))
    } else if id == "mediaControl.pause"@ {
        r == Ok::<RunnerRequest, String>(RunnerRequest::ControlMedia(MediaCommand::Pause))
    } else if id == "mediaControl.togglePlayPause"@ {
        r == Ok::<RunnerRequest, String>(RunnerRequest::ControlMedia(MediaCommand::TogglePlayPause))
    } else if id == "mediaControl.next"@ {
        r == Ok::<RunnerRequest, String>(RunnerRequest::ControlMedia(MediaCommand::NextTrack))
    } else if id == "mediaControl.previous"@ {
        r == Ok::<RunnerRequest, String>(RunnerRequest::ControlMedia(MediaCommand::PreviousTrack))
    } else if id == "display.list"@ {
        r == Ok::<RunnerRequest, String>(RunnerRequest::ListDisplays)
    } else if id == "display.capture"@ {
        r == Ok::<RunnerRequest, String>(RunnerRequest::CaptureDisplay)
    } else if id == "window.list"@ {
        r == Ok::<RunnerRequest, String>(RunnerRequest::ListWindows)
    } else if id == "window.capture"@ {
        r matches Ok(RunnerRequest::CaptureWindow { window }) && addresses_window(input, window)
    } else if id == "window.findText"@ {
        match argument_result(input, "query"@) {
            Err(e) => r matches Err(m) && m@ == e,
            Ok(given) => r matches Ok(RunnerRequest::FindWindowText { window, query }) && addresses_window(input, window) && query@ == given,
        }
    } else if id == "window.waitForText"@ {
        match argument_result(input, "query"@) {
            Err(e) => r matches Err(m) && m@ == e,
            Ok(given) => r matches Ok(RunnerRequest::WaitForWindowText { window, query }) && addresses_window(input, window) && query@ == given,
        }
    } else if id == "window.clickText"@ {
        match argument_result(input, "query"@) {
            Err(e) => r matches Err(m) && m@ == e,
            Ok(query_text) => match lookup(input.inputs@, "index"@) {
                Some(raw) if !(is_unsigned_decimal(raw) && decimal_value(raw) <= usize::MAX) => r matches Err(m) && m@
                    == "window.clickText has invalid --index: "@ + usize_parse_error_text(raw),
                index_input => r matches Ok(RunnerRequest::ClickWindowText { window, query, index }) && addresses_window(
                    input,
                    window,
                ) && query@ == query_text && index == (match index_input {
                    Some(raw) => decimal_value(raw),
                    None => 0,
                }),
            },
        }
    } else if id == "screen.findText"@ {
        match argument_result(input, "query"@) {
            Err(e) => r matches Err(m) && m@ == e,
            Ok(given) => r matches Ok(RunnerRequest::FindDisplayText { query }) && query@ == given,
        }
    } else if id == "screen.waitForText"@ {
        match argument_result(input, "query"@) {
            Err(e) => r matches Err(m) && m@ == e,
            Ok(given) => r matches Ok(RunnerRequest::WaitForDisplayText { query }) && query@ == given,
        }
    } else if id == "screen.clickText"@ {
        match argument_result(input, "query"@) {
            Err(e) => r matches Err(m) && m@ == e,
            Ok(given) => r matches Ok(RunnerRequest::ClickScreenText { query }) && query@ == given,
        }
    } else if id == "input.typeText"@ {
        match argument_result(input, "text"@) {
            Err(e) => r matches Err(m) && m@ == e,
            Ok(given) => r matches Ok(RunnerRequest::TypeText { text }) && text@ == given,
        }
    } else if id == "input.pasteText"@ {
        match argument_result(input, "text"@) {
            Err(e) => r matches Err(m) && m@ == e,
            Ok(given) => r matches Ok(RunnerRequest::PasteText { text }) && text@ == given,
        }
    } else if id == "input.key"@ {
        match argument_result(input, "key"@) {
            Err(e) => r matches Err(m) && m@ == e,
            Ok(given) => r matches Ok(RunnerRequest::PressKey { key }) && key@ == given,
        }
    } else {
        r matches Ok(RunnerRequest::ClickWindowPoint { window }) && addresses_window(input, window)
    }
}

fn planned(input: &InvokeCommandInput, name: &str) -> (r: Result<String, String>)
    ensures
        match argument_result(*input, name@) {
            Ok(v) => r matches Ok(s) && s@ == v,
            Err(e) => r matches Err(m) && m@ == e,
        },
{
    typed_argument(input, name)
}

/// The first call a command makes on its selected Runner, or the typed
/// argument it lacks. The command's target was checked before, and for
/// `app.activate` and the text-focus commands it names an application.
pub fn runner_request(input: &InvokeCommandInput) -> (r: Result<RunnerRequest, String>)
    requires
        is_planned_command(input.command_id@),
        (input.command_id@ == "app.activate"@ || input.command_id@ == "input.focusText"@ || input.command_id@
            == "input.axFocusText"@) ==> input.target_application_id is Some,
    ensures
        planned_request(*input, r),
{
    let id = input.command_id.as_str();
    proof {
        reveal_strlit("app.activate");
        reveal_strlit("input.focusText");
        reveal_strlit("input.axFocusText");
    }
    if text_eq(id, "app.activate") {
        let bundle_id = match activation_target(input) {
            Some(t) => t,
            None => String::new(),
        };
        return Ok(RunnerRequest::ActivateBundleId { bundle_id, settle: WireDuration { seconds: 0, nanos: 150_000_000 } });
    }
    if text_eq(id, "app.probePermissions") {
        return Ok(RunnerRequest::ProbePermissions);
    }
    if text_eq(id, "input.focusText") || text_eq(id, "input.axFocusText") {
        let app = match &input.target_application_id {
            Some(t) => t.clone(),
            None => String::new(),
        };
        return Ok(RunnerRequest::FocusText { app, selector: ax_text_selector(input) });
    }
    if text_eq(id, "mediaControl.nowPlaying") {
        return Ok(RunnerRequest::GetNowPlaying);
    }
    if text_eq(id, "mediaControl.play") {
        return Ok(RunnerRequest::ControlMedia(MediaCommand::Play));
    }
    if text_eq(id, "mediaControl.pause") {
        return Ok(RunnerRequest::ControlMedia(MediaCommand::Pause));
    }
    if text_eq(id, "mediaControl.togglePlayPause") {
        return Ok(RunnerRequest::ControlMedia(MediaCommand::TogglePlayPause));
    }
    if text_eq(id, "mediaControl.next") {
        return Ok(RunnerRequest::ControlMedia(MediaCommand::NextTrack));
    }
    if text_eq(id, "mediaControl.previous") {
        return Ok(RunnerRequest::ControlMedia(MediaCommand::PreviousTrack));
    }
    if text_eq(id, "display.list") {
        return Ok(RunnerRequest::ListDisplays);
    }
    if text_eq(id, "display.capture") {
        return Ok(RunnerRequest::CaptureDisplay);
    }
    if text_eq(id, "window.list") {
        return Ok(RunnerRequest::ListWindows);
    }
    if text_eq(id, "window.capture") {
        return Ok(RunnerRequest::CaptureWindow { window: selected_window_selector(input) });
    }
    if text_eq(id, "window.findText") {
        let query = planned(input, "query")?;
        return Ok(RunnerRequest::FindWindowText { window: selected_window_selector(input), query });
    }
    if text_eq(id, "window.waitForText") {
        let query = planned(input, "query")?;
        return Ok(RunnerRequest::WaitForWindowText { window: selected_window_selector(input), query });
    }
    if text_eq(id, "window.clickText") {
        let query = planned(input, "query")?;
        let index = selected_text_match_index(input)?;
        return Ok(RunnerRequest::ClickWindowText { window: selected_window_selector(input), query, index });
    }
    if text_eq(id, "screen.findText") {
        let query = planned(input, "query")?;
        return Ok(RunnerRequest::FindDisplayText { query });
    }
    if text_eq(id, "screen.waitForText") {
        let query = planned(input, "query")?;
        return Ok(RunnerRequest::WaitForDisplayText { query });
    }
    if text_eq(id, "screen.clickText") {
        let query = planned(input, "query")?;
        return Ok(RunnerRequest::ClickScreenText { query });
    }
    if text_eq(id, "input.typeText") {
        let text = planned(input, "text")?;
        return Ok(RunnerRequest::TypeText { text });
    }
    if text_eq(id, "input.pasteText") {
        let text = planned(input, "text")?;
        return Ok(RunnerRequest::PasteText { text });
    }
    if text_eq(id, "input.key") {
        let key = planned(input, "key")?;
        return Ok(RunnerRequest::PressKey { key });
    }
    Ok(RunnerRequest::ClickWindowPoint { window: selected_window_selector(input) })
}

/// The media command of a planned `mediaControl.*` command for its id:
/// play plays, pause pauses, togglePlayPause toggles, next skips forward
/// and previous skips back.
pub open spec fn named_media_command(id: Seq<char>) -> Option<MediaCommand> {
    if id == "mediaControl.play"@ {
        Some(MediaCommand::Play)
    } else if id == "mediaControl.pause"@ {
        Some(MediaCommand::Pause)
    } else if id == "mediaControl.togglePlayPause"@ {
        Some(MediaCommand::TogglePlayPause)
    } else if id == "mediaControl.next"@ {
        Some(MediaCommand::NextTrack)
    } else if id == "mediaControl.previous"@ {
        Some(MediaCommand::PreviousTrack)
    } else {
        None
    }
}

/// Each media-control command plans the media command of the same name, so
/// the five commands plan five different media commands.
pub proof fn lemma_media_commands_keep_their_names(input: InvokeCommandInput, r: Result<RunnerRequest, String>)
    requires
        planned_request(input, r),
    ensures
        input.command_id@ == "mediaControl.play"@ ==> r == Ok::<RunnerRequest, String>(
            RunnerRequest::ControlMedia(MediaCommand::Play),
        ),
        input.command_id@ == "mediaControl.pause"@ ==> r == Ok::<RunnerRequest, String>(
            RunnerRequest::ControlMedia(MediaCommand::Pause),
        ),
        input.command_id@ == "mediaControl.togglePlayPause"@ ==> r == Ok::<RunnerRequest, String>(
            RunnerRequest::ControlMedia(MediaCommand::TogglePlayPause),
        ),
        input.command_id@ == "mediaControl.next"@ ==> r == Ok::<RunnerRequest, String>(
            RunnerRequest::ControlMedia(MediaCommand::NextTrack),
        ),
        input.command_id@ == "mediaControl.previous"@ ==> r == Ok::<RunnerRequest, String>(
            RunnerRequest::ControlMedia(MediaCommand::PreviousTrack),
        ),
{
    reveal_strlit("app.activate");
    reveal_strlit("app.probePermissions");
    reveal_strlit("input.focusText");
    reveal_strlit("input.axFocusText");
    reveal_strlit("mediaControl.nowPlaying");
    reveal_strlit("mediaControl.play");
    reveal_strlit("mediaControl.pause");
    reveal_strlit("mediaControl.togglePlayPause");
    reveal_strlit("mediaControl.next");
    reveal_strlit("mediaControl.previous");
    let id = input.command_id@;
    if id == "mediaControl.play"@ || id == "mediaControl.pause"@ || id == "mediaControl.togglePlayPause"@ || id
        == "mediaControl.next"@ || id == "mediaControl.previous"@ {
        assert(id != "app.activate"@ && id != "app.probePermissions"@ && id != "input.focusText"@ && id
            != "input.axFocusText"@) by {
            assert(id[0] == 'm');
            assert("app.activate"@[0] == 'a');
            assert("app.probePermissions"@[0] == 'a');
            assert("input.focusText"@[0] == 'i');
            assert("input.axFocusText"@[0] == 'i');
        }
        assert(id != "mediaControl.nowPlaying"@) by {
            assert("mediaControl.nowPlaying"@.len() == 23);
        }
        assert("mediaControl.next"@ != "mediaControl.play"@) by {
            assert("mediaControl.next"@[13] != "mediaControl.play"@[13]);
        }
    }
}

/// Two planned media-control commands with different ids send different
/// media commands.
pub proof fn lemma_media_commands_are_distinct(
    i1: InvokeCommandInput,
    r1: Result<RunnerRequest, String>,
    i2: InvokeCommandInput,
    r2: Result<RunnerRequest, String>,
)
    requires
        planned_request(i1, r1),
        planned_request(i2, r2),
        named_media_command(i1.command_id@) is Some,
        named_media_command(i2.command_id@) is Some,
        i1.command_id@ != i2.command_id@,
    ensures
        r1 matches Ok(RunnerRequest::ControlMedia(m1)) && r2 matches Ok(RunnerRequest::ControlMedia(m2)) && m1 != m2,
{
    lemma_media_commands_keep_their_names(i1, r1);
    lemma_media_commands_keep_their_names(i2, r2);
}

/// Each planned command asks its Runner for the call of the same name:
/// permissions are probed, now-playing is read, displays and windows are
/// listed or captured, windows are clicked, and text is found, waited for,
/// clicked, typed, pasted or pressed with exactly the typed argument it was
/// given (and refused without one).
pub proof fn lemma_runner_requests_follow_the_command(input: InvokeCommandInput, r: Result<RunnerRequest, String>)
    requires
        planned_request(input, r),
    ensures
        input.command_id@ == "app.probePermissions"@ ==> r == Ok::<RunnerRequest, String>(RunnerRequest::ProbePermissions),
        input.command_id@ == "mediaControl.nowPlaying"@ ==> r == Ok::<RunnerRequest, String>(RunnerRequest::GetNowPlaying),
        input.command_id@ == "display.list"@ ==> r == Ok::<RunnerRequest, String>(RunnerRequest::ListDisplays),
        input.command_id@ == "display.capture"@ ==> r == Ok::<RunnerRequest, String>(RunnerRequest::CaptureDisplay),
        input.command_id@ == "window.list"@ ==> r == Ok::<RunnerRequest, String>(RunnerRequest::ListWindows),
        input.command_id@ == "window.capture"@ ==> r matches Ok(RunnerRequest::CaptureWindow { .. }),
        input.command_id@ == "input.clickWindowPoint"@ ==> r matches Ok(RunnerRequest::ClickWindowPoint { .. }),
        input.command_id@ == "window.findText"@ ==> match lookup(input.inputs@, "query"@) {
            Some(given) => r matches Ok(RunnerRequest::FindWindowText { query, .. }) && query@ == given,
            None => r is Err,
        },
        input.command_id@ == "window.waitForText"@ ==> match lookup(input.inputs@, "query"@) {
            Some(given) => r matches Ok(RunnerRequest::WaitForWindowText { query, .. }) && query@ == given,
            None => r is Err,
        },
        input.command_id@ == "screen.findText"@ ==> match lookup(input.inputs@, "query"@) {
            Some(given) => r matches Ok(RunnerRequest::FindDisplayText { query, .. }) && query@ == given,
            None => r is Err,
        },
        input.command_id@ == "screen.waitForText"@ ==> match lookup(input.inputs@, "query"@) {
            Some(given) => r matches Ok(RunnerRequest::WaitForDisplayText { query, .. }) && query@ == given,
            None => r is Err,
        },
        input.command_id@ == "screen.clickText"@ ==> match lookup(input.inputs@, "query"@) {
            Some(given) => r matches Ok(RunnerRequest::ClickScreenText { query, .. }) && query@ == given,
            None => r is Err,
        },
        input.command_id@ == "input.typeText"@ ==> match lookup(input.inputs@, "text"@) {
            Some(given) => r matches Ok(RunnerRequest::TypeText { text, .. }) && text@ == given,
            None => r is Err,
        },
        input.command_id@ == "input.pasteText"@ ==> match lookup(input.inputs@, "text"@) {
            Some(given) => r matches Ok(RunnerRequest::PasteText { text, .. }) && text@ == given,
            None => r is Err,
        },
        input.command_id@ == "input.key"@ ==> match lookup(input.inputs@, "key"@) {
            Some(given) => r matches Ok(RunnerRequest::PressKey { key, .. }) && key@ == given,
            None => r is Err,
        },
{
    reveal_strlit("app.activate");
    reveal_strlit("app.probePermissions");
    reveal_strlit("input.focusText");
    reveal_strlit("input.axFocusText");
    reveal_strlit("mediaControl.nowPlaying");
    reveal_strlit("mediaControl.play");
    reveal_strlit("mediaControl.pause");
    reveal_strlit("mediaControl.togglePlayPause");
    reveal_strlit("mediaControl.next");
    reveal_strlit("mediaControl.previous");
    reveal_strlit("display.list");
    reveal_strlit("display.capture");
    reveal_strlit("window.list");
    reveal_strlit("window.capture");
    reveal_strlit("window.findText");
    reveal_strlit("window.waitForText");
    reveal_strlit("window.clickText");
    reveal_strlit("screen.findText");
    reveal_strlit("screen.waitForText");
    reveal_strlit("screen.clickText");
    reveal_strlit("input.typeText");
    reveal_strlit("input.pasteText");
    reveal_strlit("input.key");
    reveal_strlit("input.clickWindowPoint");
    let id = input.command_id@;
    if id == "mediaControl.play"@ {
        assert(id != "input.axFocusText"@) by {
            assert(id[0] != "input.axFocusText"@[0]);
        }
    }
    if id == "mediaControl.next"@ {
        assert(id != "input.axFocusText"@) by {
            assert(id[0] != "input.axFocusText"@[0]);
        }
        assert(id != "mediaControl.play"@) by {
            assert(id[13] != "mediaControl.play"@[13]);
        }
    }
    if id == "display.list"@ {
        assert(id != "app.activate"@) by {
            assert(id[0] != "app.activate"@[0]);
        }
    }
    if id == "display.capture"@ {
        assert(id != "input.focusText"@) by {
            assert(id[0] != "input.focusText"@[0]);
        }
    }
    if id == "window.findText"@ {
        assert(id != "input.focusText"@) by {
            assert(id[0] != "input.focusText"@[0]);
        }
        assert(id != "display.capture"@) by {
            assert(id[0] != "display.capture"@[0]);
        }
    }
    if id == "window.waitForText"@ {
        assert(id != "mediaControl.pause"@) by {
            assert(id[0] != "mediaControl.pause"@[0]);
        }
    }
    if id == "screen.findText"@ {
        assert(id != "input.focusText"@) by {
            assert(id[0] != "input.focusText"@[0]);
        }
        assert(id != "display.capture"@) by {
            assert(id[0] != "display.capture"@[0]);
        }
        assert(id != "window.findText"@) by {
            assert(id[0] != "window.findText"@[0]);
        }
    }
    if id == "screen.waitForText"@ {
        assert(id != "mediaControl.pause"@) by {
            assert(id[0] != "mediaControl.pause"@[0]);
        }
        assert(id != "window.waitForText"@) by {
            assert(id[0] != "window.waitForText"@[0]);
        }
    }
    if id == "screen.clickText"@ {
        assert(id != "window.clickText"@) by {
            assert(id[0] != "window.clickText"@[0]);
        }
    }
    if id == "input.typeText"@ {
        assert(id != "window.capture"@) by {
            assert(id[0] != "window.capture"@[0]);
        }
    }
    if id == "input.pasteText"@ {
        assert(id != "input.focusText"@) by {
            assert(id[6] != "input.focusText"@[6]);
        }
        assert(id != "display.capture"@) by {
            assert(id[0] != "display.capture"@[0]);
        }
        assert(id != "window.findText"@) by {
            assert(id[0] != "window.findText"@[0]);
        }
        assert(id != "screen.findText"@) by {
            assert(id[0] != "screen.findText"@[0]);
        }
    }
}

} // verus!
