//! Routing of a typed invocation to a selected daemon-owned Runner: which
//! commands accept an explicit target application, and how the target
//! window is selected on the wire.

use vstd::prelude::*;
use crate::inputs::lookup;
use crate::invoke::InvokeCommandInput;
use crate::parse::{debug_quoted, debug_text, decimal_value, is_unsigned_decimal, parse_usize, usize_parse_error_text};
use crate::text::{has_prefix, is_blank, is_blank_text, owned, starts_with, text_eq, trim, trimmed, viewed};

verus! {

/// A target that is absent or blank names no application.
pub open spec fn names_no_target(target: Option<String>) -> bool {
    match target {
        None => true,
        Some(t) => is_blank(t@),
    }
}

pub open spec fn is_focus_text_command(command_id: Seq<char>) -> bool {
    command_id == "input.focusText"@ || command_id == "input.axFocusText"@
}

pub open spec fn is_active_control_input_command(command_id: Seq<char>) -> bool {
    command_id == "input.typeText"@ || command_id == "input.pasteText"@ || command_id == "input.key"@
}

pub open spec fn is_screen_command(command_id: Seq<char>) -> bool {
    ||| command_id == "screen.findText"@
    ||| command_id == "screen.waitForText"@
    ||| command_id == "screen.clickText"@
    ||| command_id == "screen.captureRegion"@
}

/// Whether a command may run with the given explicit target, and the error
/// it reports when it may not. The checks are tried in this order.
pub open spec fn selected_target_result(command_id: Seq<char>, target: Option<String>) -> Result<(), Seq<char>> {
    if command_id == "app.probePermissions"@ && target is Some {
        Err("app.probePermissions cannot use --target"@)
    } else if command_id == "app.activate"@ && names_no_target(target) {
        Err("app.activate requires --target"@)
    } else if is_focus_text_command(command_id) && names_no_target(target) {
        Err(command_id + " requires --target"@)
    } else if has_prefix(command_id, "mediaControl."@) && target is Some {
        if command_id == "mediaControl.nowPlaying"@ {
            Err("mediaControl.nowPlaying cannot use --target; the macOS now-playing state is system-wide"@)
        } else {
            Err(command_id + " cannot use --target; macOS media controls are system-wide"@)
        }
    } else if has_prefix(command_id, "overlay."@) && target is Some {
        Err(command_id + " cannot use --target; overlays use global screen coordinates"@)
    } else if is_active_control_input_command(command_id) && target is Some {
        Err(command_id + " cannot use --target until typed input target activation is available"@)
    } else if is_screen_command(command_id) && target is Some {
        Err(command_id + " cannot use --target until typed target activation is available"@)
    } else {
        Ok(())
    }
}

fn target_is_blank(target: &Option<String>) -> (r: bool)
    ensures
        r == names_no_target(*target),
{
    match target {
        None => true,
        Some(t) => is_blank_text(t.as_str()),
    }
}

/// Checks the explicit target of a command before it is routed to a
/// selected Runner.
pub fn check_selected_target(command_id: &str, target: &Option<String>) -> (r: Result<(), String>)
    ensures
        viewed(r) == selected_target_result(command_id@, *target),
{
    proof {
        reveal_strlit("input.typeText");
        reveal_strlit("input.pasteText");
        reveal_strlit("input.key");
    }
    let has_target = target.is_some();
    if text_eq(command_id, "app.probePermissions") && has_target {
        return Err(owned("app.probePermissions cannot use --target"));
    }
    if text_eq(command_id, "app.activate") && target_is_blank(target) {
        return Err(owned("app.activate requires --target"));
    }
    if (text_eq(command_id, "input.focusText") || text_eq(command_id, "input.axFocusText")) && target_is_blank(target) {
        let mut m = owned(command_id);
        m.append(" requires --target");
        return Err(m);
    }
    if starts_with(command_id, "mediaControl.") && has_target {
        if text_eq(command_id, "mediaControl.nowPlaying") {
            return Err(owned("mediaControl.nowPlaying cannot use --target; the macOS now-playing state is system-wide"));
        }
        let mut m = owned(command_id);
        m.append(" cannot use --target; macOS media controls are system-wide");
        return Err(m);
    }
    if starts_with(command_id, "overlay.") && has_target {
        let mut m = owned(command_id);
        m.append(" cannot use --target; overlays use global screen coordinates");
        return Err(m);
    }
    if (text_eq(command_id, "input.typeText") || text_eq(command_id, "input.pasteText") || text_eq(command_id, "input.key"))
        && has_target {
        let mut m = owned(command_id);
        m.append(" cannot use --target until typed input target activation is available");
        return Err(m);
    }
    if (text_eq(command_id, "screen.findText") || text_eq(command_id, "screen.waitForText") || text_eq(
        command_id,
        "screen.clickText",
    ) || text_eq(command_id, "screen.captureRegion")) && has_target {
        let mut m = owned(command_id);
        m.append(" cannot use --target until typed target activation is available");
        return Err(m);
    }
    Ok(())
}

/// Which application a wire window selector addresses.
#[derive(Clone, Debug, PartialEq, Eq)]
pub enum WireApplicationSelector {
    ApplicationBundleId(String),
    FrontmostApplication(bool),
}

/// Which window of that application a wire window selector addresses.
#[derive(Clone, Debug, PartialEq, Eq)]
pub enum WireWindowMatch {
    TitleContains(String),
    MainVisible(bool),
}

/// A window selector as carried on the wire.
#[derive(Clone, Debug, PartialEq, Eq)]
pub struct WireWindowSelector {
    pub application: Option<WireApplicationSelector>,
    pub window: Option<WireWindowMatch>,
}

/// The target window of a command routed to a selected Runner: the target
/// application's bundle id, or the frontmost application; a window whose
/// title contains the non-blank `title` input, or the main visible window.
pub fn selected_window_selector(input: &InvokeCommandInput) -> (selector: WireWindowSelector)
    ensures
        match input.target_application_id {
            Some(target) => selector.application matches Some(WireApplicationSelector::ApplicationBundleId(b)) && b@ == target@,
            None => selector.application == Some(WireApplicationSelector::FrontmostApplication(true)),
        },
        match lookup(input.inputs@, "title"@) {
            Some(title) => if is_blank(title) {
                selector.window == Some(WireWindowMatch::MainVisible(true))
            } else {
                selector.window matches Some(WireWindowMatch::TitleContains(t)) && t@ == title
            },
            None => selector.window == Some(WireWindowMatch::MainVisible(true)),
        },
{
    let application = match &input.target_application_id {
        Some(bundle_id) => WireApplicationSelector::ApplicationBundleId(bundle_id.clone()),
        None => WireApplicationSelector::FrontmostApplication(true),
    };
    let window = match input.inputs.get("title") {
        Some(title) => if is_blank_text(title.as_str()) {
            WireWindowMatch::MainVisible(true)
        } else {
            WireWindowMatch::TitleContains(title.clone())
        },
        None => WireWindowMatch::MainVisible(true),
    };
    WireWindowSelector { application: Some(application), window: Some(window) }
}

/// Which recognized text match `window.clickText` clicks: its `index`
/// input, or the first match.
pub fn selected_text_match_index(input: &InvokeCommandInput) -> (r: Result<usize, String>)
    ensures
        match lookup(input.inputs@, "index"@) {
            None => r == Ok::<usize, String>(0),
            Some(raw) => if is_unsigned_decimal(raw) && decimal_value(raw) <= usize::MAX {
                r == Ok::<usize, String>(decimal_value(raw) as usize)
            } else {
                r matches Err(m) && m@ == "window.clickText has invalid --index: "@ + usize_parse_error_text(raw)
            },
        },
{
    match input.inputs.get("index") {
        None => Ok(0),
        Some(raw) => match parse_usize(raw.as_str()) {
            Ok(v) => Ok(v),
            Err(error) => {
                let mut m = owned("window.clickText has invalid --index: ");
                m.append(error.as_str());
                Err(m)
            },
        },
    }
}

/// A typed argument a command cannot run without, e.g. the `query` of a
/// text search or the `text` of typed input.
pub fn typed_argument(input: &InvokeCommandInput, name: &str) -> (r: Result<String, String>)
    ensures
        match lookup(input.inputs@, name@) {
            Some(value) => r matches Ok(v) && v@ == value,
            None => r matches Err(m) && m@ == input.command_id@ + " omitted its typed "@ + name@ + " argument"@,
        },
{
    match input.inputs.get(name) {
        Some(value) => Ok(value.clone()),
        None => {
            let mut m = owned(input.command_id.as_str());
            m.append(" omitted its typed ");
            m.append(name);
            m.append(" argument");
            Err(m)
        },
    }
}

/// How a text-focus command finds its accessibility element: by an explicit
/// element path (`candidate`), or by a text query.
#[derive(Clone, Debug, PartialEq, Eq)]
pub enum AxTextSelector {
    Query(String),
    Path(String),
}

/// A non-blank `candidate` path wins; otherwise the `query` (empty when
/// absent) is searched for.
pub fn ax_text_selector(input: &InvokeCommandInput) -> (selector: AxTextSelector)
    ensures
        match lookup(input.inputs@, "candidate"@) {
            Some(candidate) if !is_blank(candidate) => selector matches AxTextSelector::Path(p) && p@ == candidate,
            _ => selector matches AxTextSelector::Query(q) && q@ == (match lookup(input.inputs@, "query"@) {
                Some(query) => query,
                None => Seq::empty(),
            }),
        },
{
    let candidate = match input.inputs.get("candidate") {
        Some(c) => c.clone(),
        None => String::new(),
    };
    if is_blank_text(candidate.as_str()) {
        match input.inputs.get("query") {
            Some(q) => AxTextSelector::Query(q.clone()),
            None => AxTextSelector::Query(String::new()),
        }
    } else {
        AxTextSelector::Path(candidate)
    }
}

/// The application `app.activate` activates: its target, trimmed.
pub fn activation_target(input: &InvokeCommandInput) -> (r: Option<String>)
    ensures
        match input.target_application_id {
            Some(t) => r matches Some(v) && v@ == trimmed(t@),
            None => r is None,
        },
{
    match &input.target_application_id {
        Some(t) => Some(trim(t.as_str())),
        None => None,
    }
}

/// An activation answer must name the bundle id that was asked for.
pub fn check_activation_echo(requested_bundle_id: &str, target: &str) -> (r: Result<(), String>)
    ensures
        r is Ok <==> requested_bundle_id@ == target@,
        r matches Err(m) ==> m@ == "ActivateBundleId response changed the requested bundle id"@,
{
    if text_eq(requested_bundle_id, target) {
        Ok(())
    } else {
        Err(owned("ActivateBundleId response changed the requested bundle id"))
    }
}

/// The error of a text wait that timed out.
pub fn text_wait_timeout(command_id: &str, query: &str) -> (m: String)
    ensures
        m@ == command_id@ + " did not find text "@ + debug_text(query@) + " before timeout"@,
{
    let mut m = owned(command_id);
    m.append(" did not find text ");
    let q = debug_quoted(query);
    m.append(q.as_str());
    m.append(" before timeout");
    m
}

/// Where an invocation goes once its front checks are made: refused with
/// an error, answered locally from the overlay plan without presenting it,
/// or sent to a selected Runner.
pub enum InvokeRoute {
    Refused(String),
    LocalOverlay,
    Runner,
}

/// The route of an invocation by its views.
pub enum InvokeRouteView {
    Refused(Seq<char>),
    LocalOverlay,
    Runner,
}

pub open spec fn route_view(route: InvokeRoute) -> InvokeRouteView {
    match route {
        InvokeRoute::Refused(e) => InvokeRouteView::Refused(e@),
        InvokeRoute::LocalOverlay => InvokeRouteView::LocalOverlay,
        InvokeRoute::Runner => InvokeRouteView::Runner,
    }
}

/// The route of an invocation: the target checks first; then, for an
/// overlay command, its plan, which a dry run or disabled overlays answer
/// locally; everything else goes to a Runner. The route depends on these
/// values alone, never on the daemon, Run or Runner context.
pub open spec fn invoke_route_spec(
    command_id: Seq<char>,
    target: Option<String>,
    dry_run: bool,
    overlay_plan: Result<(), Seq<char>>,
    overlay_enabled: Result<bool, Seq<char>>,
) -> InvokeRouteView {
    match selected_target_result(command_id, target) {
        Err(e) => InvokeRouteView::Refused(e),
        Ok(_) => if has_prefix(command_id, "overlay."@) {
            match overlay_plan {
                Err(e) => InvokeRouteView::Refused(e),
                Ok(_) => if dry_run {
                    InvokeRouteView::LocalOverlay
                } else {
                    match overlay_enabled {
                        Err(e) => InvokeRouteView::Refused(e),
                        Ok(false) => InvokeRouteView::LocalOverlay,
                        Ok(true) => InvokeRouteView::Runner,
                    }
                }
            }
        } else {
            InvokeRouteView::Runner
        },
    }
}

/// Decides where an invocation goes. `overlay_plan` is the outcome of
/// planning an overlay command and `overlay_enabled` whether overlays are
/// presented; both are read only for overlay commands, and the latter only
/// when the command is not a dry run. A refused invocation, or one answered
/// locally, contacts no daemon, Run or Runner.
pub fn invoke_route(
    command_id: &str,
    target: &Option<String>,
    dry_run: bool,
    overlay_plan: Result<(), String>,
    overlay_enabled: Result<bool, String>,
) -> (r: InvokeRoute)
    ensures
        route_view(r) == invoke_route_spec(command_id@, *target, dry_run, viewed(overlay_plan), viewed(overlay_enabled)),
        selected_target_result(command_id@, *target) is Err ==> r is Refused,
        (has_prefix(command_id@, "overlay."@) && selected_target_result(command_id@, *target) is Ok && overlay_plan is Ok
            && dry_run) ==> r is LocalOverlay,
{
    match check_selected_target(command_id, target) {
        Err(e) => return InvokeRoute::Refused(e),
        Ok(_) => {},
    }
    proof {
        reveal_strlit("overlay.");
    }
    if starts_with(command_id, "overlay.") {
        match overlay_plan {
            Err(e) => InvokeRoute::Refused(e),
            Ok(_) => if dry_run {
                InvokeRoute::LocalOverlay
            } else {
                match overlay_enabled {
                    Err(e) => InvokeRoute::Refused(e),
                    Ok(false) => InvokeRoute::LocalOverlay,
                    Ok(true) => InvokeRoute::Runner,
                }
            },
        }
    } else {
        InvokeRoute::Runner
    }
}

} // verus!
