//! Decisions of the root `auv` frontend that need no I/O: how verbose its
//! diagnostics are, and what the permission check concludes.

use vstd::prelude::*;
use crate::text::{chars_of, owned, text_eq};

verus! {

/// How much one argument raises the verbosity: `--verbose` by one, a short
/// flag made only of `v`s by its number of `v`s (at most 255), anything
/// else not at all.
pub open spec fn verbosity_of(argument: Seq<char>) -> nat {
    if argument == "--verbose"@ {
        1
    } else if argument.len() >= 1 && argument[0] == '-' && !(argument.len() >= 2 && argument[1] == '-')
        && forall|i: int| 1 <= i < argument.len() ==> #[trigger] argument[i] == 'v' {
        if argument.len() - 1 <= 255 { (argument.len() - 1) as nat } else { 255 }
    } else {
        0
    }
}

/// The verbosity of a whole command line, saturating at 255; arguments that
/// are not valid Unicode (`None`) do not count.
pub open spec fn verbosity_spec(arguments: Seq<Option<String>>) -> nat
    decreases arguments.len(),
{
    if arguments.len() == 0 {
        0
    } else {
        let before = verbosity_spec(arguments.drop_last());
        let step = match arguments.last() {
            Some(a) => verbosity_of(a@),
            None => 0,
        };
        if before + step <= 255 { before + step } else { 255 }
    }
}

fn argument_verbosity(argument: &str) -> (n: u8)
    ensures
        n == verbosity_of(argument@),
{
    proof {
        reveal_strlit("--verbose");
    }
    if text_eq(argument, "--verbose") {
        return 1;
    }
    let cs = chars_of(argument);
    if cs.len() == 0 || cs[0] != '-' || (cs.len() >= 2 && cs[1] == '-') {
        return 0;
    }
    let mut i: usize = 1;
    while i < cs.len()
        invariant
            cs@ == argument@,
            argument@ != "--verbose"@,
            1 <= i <= cs.len(),
            forall|j: int| 1 <= j < i ==> argument@[j] == 'v',
        decreases cs.len() - i,
    {
        if cs[i] != 'v' {
            return 0;
        }
        i = i + 1;
    }
    if cs.len() - 1 <= 255 {
        (cs.len() - 1) as u8
    } else {
        255
    }
}

/// Counts `--verbose` and `-v…` flags, saturating at 255.
pub fn verbosity(arguments: &Vec<Option<String>>) -> (n: u8)
    ensures
        n == verbosity_spec(arguments@),
{
    let mut count: u8 = 0;
    let mut i: usize = 0;
    while i < arguments.len()
        invariant
            i <= arguments.len(),
            count == verbosity_spec(arguments@.take(i as int)),
        decreases arguments.len() - i,
    {
        assert(arguments@.take(i + 1).drop_last() =~= arguments@.take(i as int));
        let step: u8 = match &arguments[i] {
            Some(a) => argument_verbosity(a.as_str()),
            None => 0,
        };
        count = count.saturating_add(step);
        i = i + 1;
    }
    assert(arguments@.take(arguments.len() as int) =~= arguments@);
    count
}

/// The advice the permission check ends with.
pub open spec fn permission_recommendation_text(accessibility: Seq<char>, screen_capture_kit: Seq<char>) -> Seq<char> {
    if accessibility == "granted"@ && screen_capture_kit == "granted"@ {
        "AUV has the macOS permissions needed for capture and AX-backed automation."@
    } else if accessibility == "missing"@ && screen_capture_kit == "missing"@ {
        "Grant Accessibility and Screen Recording to the terminal or app that launches auv, then rerun this check."@
    } else if accessibility == "missing"@ {
        "Grant Accessibility to the terminal or app that launches auv, then rerun this check."@
    } else if screen_capture_kit == "missing"@ {
        "Grant Screen Recording to the terminal or app that launches auv, then rerun this check."@
    } else {
        "Review the permission statuses above before running desktop automation."@
    }
}

pub fn permission_recommendation(accessibility: &str, screen_capture_kit: &str) -> (r: String)
    ensures
        r@ == permission_recommendation_text(accessibility@, screen_capture_kit@),
{
    let a_granted = text_eq(accessibility, "granted");
    let s_granted = text_eq(screen_capture_kit, "granted");
    let a_missing = text_eq(accessibility, "missing");
    let s_missing = text_eq(screen_capture_kit, "missing");
    if a_granted && s_granted {
        owned("AUV has the macOS permissions needed for capture and AX-backed automation.")
    } else if a_missing && s_missing {
        owned("Grant Accessibility and Screen Recording to the terminal or app that launches auv, then rerun this check.")
    } else if a_missing {
        owned("Grant Accessibility to the terminal or app that launches auv, then rerun this check.")
    } else if s_missing {
        owned("Grant Screen Recording to the terminal or app that launches auv, then rerun this check.")
    } else {
        owned("Review the permission statuses above before running desktop automation.")
    }
}

/// The display line of one permission status.
pub open spec fn permission_status_text(status: Seq<char>) -> Seq<char> {
    if status == "granted"@ {
        "[ok] granted"@
    } else if status == "missing"@ {
        "[missing] missing"@
    } else {
        "[unknown] "@ + status
    }
}

pub fn permission_status_line(status: &str) -> (r: String)
    ensures
        r@ == permission_status_text(status@),
{
    if text_eq(status, "granted") {
        owned("[ok] granted")
    } else if text_eq(status, "missing") {
        owned("[missing] missing")
    } else {
        let mut r = owned("[unknown] ");
        r.append(status);
        r
    }
}

/// The statuses the native permission probe reports.
pub struct NativePermissions {
    pub accessibility: String,
    pub screen_recording: String,
    pub screen_capture_kit: String,
}

/// What the permission check concludes from the native statuses.
pub struct PermissionSummary {
    pub all_ok: bool,
    pub warnings: Vec<String>,
    pub recommendation: String,
}

pub open spec fn attribution_warning_text() -> Seq<char> {
    "CGPreflightScreenCaptureAccess reports missing, but the ScreenCaptureKit probe works; this can happen when the launch host owns TCC attribution."@
}

/// Everything is in order when Accessibility and the ScreenCaptureKit probe
/// are granted; a missing preflight next to a working probe is reported as
/// an attribution warning.
pub fn permission_check_summary(native: &NativePermissions) -> (summary: PermissionSummary)
    ensures
        summary.all_ok == (native.accessibility@ == "granted"@ && native.screen_capture_kit@ == "granted"@),
        (native.screen_recording@ == "missing"@ && native.screen_capture_kit@ == "granted"@) ==> (
            summary.warnings@.len() == 1 && summary.warnings@[0]@ == attribution_warning_text()),
        !(native.screen_recording@ == "missing"@ && native.screen_capture_kit@ == "granted"@) ==> summary.warnings@.len() == 0,
        summary.recommendation@ == permission_recommendation_text(native.accessibility@, native.screen_capture_kit@),
{
    let all_ok = text_eq(native.accessibility.as_str(), "granted") && text_eq(native.screen_capture_kit.as_str(), "granted");
    let mut warnings = Vec::new();
    if text_eq(native.screen_recording.as_str(), "missing") && text_eq(native.screen_capture_kit.as_str(), "granted") {
        warnings.push(owned(
            "CGPreflightScreenCaptureAccess reports missing, but the ScreenCaptureKit probe works; this can happen when the launch host owns TCC attribution.",
        ));
    }
    let recommendation = permission_recommendation(native.accessibility.as_str(), native.screen_capture_kit.as_str());
    PermissionSummary { all_ok, warnings, recommendation }
}

/// The diagnostics filter for a verbosity: none when quiet, else this
/// crate's events at `info`, `debug` or `trace`, with every dependency kept
/// silent (their HTTP and gRPC traces may carry credentials).
pub open spec fn diagnostics_filter_text(verbosity: u8) -> Option<Seq<char>> {
    if verbosity == 0 {
        None
    } else if verbosity == 1 {
        Some("off,auv_cli=info"@)
    } else if verbosity == 2 {
        Some("off,auv_cli=debug"@)
    } else {
        Some("off,auv_cli=trace"@)
    }
}

pub fn diagnostics_filter(verbosity: u8) -> (r: Option<String>)
    ensures
        match diagnostics_filter_text(verbosity) {
            Some(f) => r matches Some(s) && s@ == f,
            None => r is None,
        },
{
    if verbosity == 0 {
        None
    } else if verbosity == 1 {
        Some(owned("off,auv_cli=info"))
    } else if verbosity == 2 {
        Some(owned("off,auv_cli=debug"))
    } else {
        Some(owned("off,auv_cli=trace"))
    }
}

} // verus!
