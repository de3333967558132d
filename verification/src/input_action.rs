//! The input action result a Runner reports for a remote input command, in
//! its wire form, and the driver result it maps to.

use vstd::prelude::*;
use crate::parse::{decimal_text, u64_text};
use crate::text::{owned, viewed};

verus! {

/// A delivery path as the wire carries it: one of the known paths, the
/// unspecified default, or a number no path is known by.
#[derive(Clone, Copy, Debug, PartialEq, Eq)]
pub enum WireDeliveryPath {
    Unspecified,
    Noop,
    AxPress,
    AxFocus,
    AxSetValue,
    AxScroll,
    AxSelectedText,
    WindowTargetedMouse,
    WindowTargetedWheel,
    WindowTargetedKeyboard,
    WindowTargetedKeyboardScroll,
    ClipboardPaste,
    ForegroundSystemEvents,
    Unsupported,
    Unrecognized(i32),
}

/// A disturbance level as the wire carries it.
#[derive(Clone, Copy, Debug, PartialEq, Eq)]
pub enum WireDisturbance {
    Unspecified,
    NoDisturbance,
    Temporary,
    Foreground,
    Unknown,
    Unrecognized(i32),
}

/// One delivery attempt as the wire carries it.
#[derive(Clone, Debug, PartialEq, Eq)]
pub struct WireInputAttempt {
    pub path: WireDeliveryPath,
    pub succeeded: bool,
    pub message: String,
}

/// An input action result as the wire carries it.
#[derive(Clone, Debug, PartialEq, Eq)]
pub struct WireInputActionResult {
    pub selected_path: WireDeliveryPath,
    pub attempts: Vec<WireInputAttempt>,
    pub mouse_disturbance: WireDisturbance,
    pub focus_disturbance: WireDisturbance,
    pub clipboard_disturbance: WireDisturbance,
}

/// How the driver delivered, or tried to deliver, an input action.
#[derive(Clone, Copy, Debug, PartialEq, Eq)]
pub enum InputDeliveryPath {
    Noop,
    AxPress,
    AxFocus,
    AxSetValue,
    AxScroll,
    AxSelectedText,
    WindowTargetedMouse,
    WindowTargetedWheel,
    WindowTargetedKeyboard,
    WindowTargetedKeyboardScroll,
    ClipboardPaste,
    ForegroundSystemEvents,
    Unsupported,
}

/// How much an input action disturbed the user.
#[derive(Clone, Copy, Debug, PartialEq, Eq)]
pub enum DisturbanceLevel {
    NoDisturbance,
    Temporary,
    Foreground,
    Unknown,
}

/// One delivery attempt of the driver.
#[derive(Clone, Debug, PartialEq, Eq)]
pub struct InputAttempt {
    pub path: InputDeliveryPath,
    pub succeeded: bool,
    pub message: String,
}

/// The driver's input action result.
#[derive(Clone, Debug, PartialEq, Eq)]
pub struct InputActionResult {
    pub selected_path: InputDeliveryPath,
    pub attempts: Vec<InputAttempt>,
    pub verified: bool,
    pub mouse_disturbance: DisturbanceLevel,
    pub focus_disturbance: DisturbanceLevel,
    pub clipboard_disturbance: DisturbanceLevel,
}

/// The decimal text of a signed integer.
pub open spec fn signed_decimal_text(v: int) -> Seq<char> {
    if v < 0 {
        "-"@ + decimal_text((-v) as nat)
    } else {
        decimal_text(v as nat)
    }
}

/// The decimal text of an `i32`.
pub(crate) fn i32_text(v: i32) -> (r: String)
    ensures
        r@ == signed_decimal_text(v as int),
{
    if v < 0 {
        let magnitude: i64 = -(v as i64);
        let mut text = owned("-");
        let digits = u64_text(magnitude as u64);
        text.append(digits.as_str());
        text
    } else {
        u64_text(v as u64)
    }
}

/// The driver path of a wire path, or the error that refuses it.
pub open spec fn delivery_path_result(path: WireDeliveryPath) -> Result<InputDeliveryPath, Seq<char>> {
    match path {
        WireDeliveryPath::Unspecified => Err("InputDeliveryPath must not be unspecified"@),
        WireDeliveryPath::Noop => Ok(InputDeliveryPath::Noop),
        WireDeliveryPath::AxPress => Ok(InputDeliveryPath::AxPress),
        WireDeliveryPath::AxFocus => Ok(InputDeliveryPath::AxFocus),
        WireDeliveryPath::AxSetValue => Ok(InputDeliveryPath::AxSetValue),
        WireDeliveryPath::AxScroll => Ok(InputDeliveryPath::AxScroll),
        WireDeliveryPath::AxSelectedText => Ok(InputDeliveryPath::AxSelectedText),
        WireDeliveryPath::WindowTargetedMouse => Ok(InputDeliveryPath::WindowTargetedMouse),
        WireDeliveryPath::WindowTargetedWheel => Ok(InputDeliveryPath::WindowTargetedWheel),
        WireDeliveryPath::WindowTargetedKeyboard => Ok(InputDeliveryPath::WindowTargetedKeyboard),
        WireDeliveryPath::WindowTargetedKeyboardScroll => Ok(InputDeliveryPath::WindowTargetedKeyboardScroll),
        WireDeliveryPath::ClipboardPaste => Ok(InputDeliveryPath::ClipboardPaste),
        WireDeliveryPath::ForegroundSystemEvents => Ok(InputDeliveryPath::ForegroundSystemEvents),
        WireDeliveryPath::Unsupported => Ok(InputDeliveryPath::Unsupported),
        WireDeliveryPath::Unrecognized(v) => Err("unknown InputDeliveryPath value "@ + signed_decimal_text(v as int)),
    }
}

/// Maps a wire delivery path to the driver's.
pub fn delivery_path(path: WireDeliveryPath) -> (r: Result<InputDeliveryPath, String>)
    ensures
        viewed(r) == delivery_path_result(path),
{
    match path {
        WireDeliveryPath::Unspecified => Err(owned("InputDeliveryPath must not be unspecified")),
        WireDeliveryPath::Noop => Ok(InputDeliveryPath::Noop),
        WireDeliveryPath::AxPress => Ok(InputDeliveryPath::AxPress),
        WireDeliveryPath::AxFocus => Ok(InputDeliveryPath::AxFocus),
        WireDeliveryPath::AxSetValue => Ok(InputDeliveryPath::AxSetValue),
        WireDeliveryPath::AxScroll => Ok(InputDeliveryPath::AxScroll),
        WireDeliveryPath::AxSelectedText => Ok(InputDeliveryPath::AxSelectedText),
        WireDeliveryPath::WindowTargetedMouse => Ok(InputDeliveryPath::WindowTargetedMouse),
        WireDeliveryPath::WindowTargetedWheel => Ok(InputDeliveryPath::WindowTargetedWheel),
        WireDeliveryPath::WindowTargetedKeyboard => Ok(InputDeliveryPath::WindowTargetedKeyboard),
        WireDeliveryPath::WindowTargetedKeyboardScroll => Ok(InputDeliveryPath::WindowTargetedKeyboardScroll),
        WireDeliveryPath::ClipboardPaste => Ok(InputDeliveryPath::ClipboardPaste),
        WireDeliveryPath::ForegroundSystemEvents => Ok(InputDeliveryPath::ForegroundSystemEvents),
        WireDeliveryPath::Unsupported => Ok(InputDeliveryPath::Unsupported),
        WireDeliveryPath::Unrecognized(v) => {
            let mut m = owned("unknown InputDeliveryPath value ");
            let n = i32_text(v);
            m.append(n.as_str());
            Err(m)
        },
    }
}

/// The driver level of a wire disturbance level, or the error that refuses
/// it.
pub open spec fn disturbance_result(level: WireDisturbance) -> Result<DisturbanceLevel, Seq<char>> {
    match level {
        WireDisturbance::Unspecified => Err("DisturbanceLevel must not be unspecified"@),
        WireDisturbance::NoDisturbance => Ok(DisturbanceLevel::NoDisturbance),
        WireDisturbance::Temporary => Ok(DisturbanceLevel::Temporary),
        WireDisturbance::Foreground => Ok(DisturbanceLevel::Foreground),
        WireDisturbance::Unknown => Ok(DisturbanceLevel::Unknown),
        WireDisturbance::Unrecognized(v) => Err("unknown DisturbanceLevel value "@ + signed_decimal_text(v as int)),
    }
}

/// Maps a wire disturbance level to the driver's.
pub fn disturbance(level: WireDisturbance) -> (r: Result<DisturbanceLevel, String>)
    ensures
        viewed(r) == disturbance_result(level),
{
    match level {
        WireDisturbance::Unspecified => Err(owned("DisturbanceLevel must not be unspecified")),
        WireDisturbance::NoDisturbance => Ok(DisturbanceLevel::NoDisturbance),
        WireDisturbance::Temporary => Ok(DisturbanceLevel::Temporary),
        WireDisturbance::Foreground => Ok(DisturbanceLevel::Foreground),
        WireDisturbance::Unknown => Ok(DisturbanceLevel::Unknown),
        WireDisturbance::Unrecognized(v) => {
            let mut m = owned("unknown DisturbanceLevel value ");
            let n = i32_text(v);
            m.append(n.as_str());
            Err(m)
        },
    }
}

/// A driver attempt by its views.
pub open spec fn attempt_views(attempts: Seq<InputAttempt>) -> Seq<(InputDeliveryPath, bool, Seq<char>)> {
    attempts.map_values(|a: InputAttempt| (a.path, a.succeeded, a.message@))
}

/// The driver attempts of wire attempts, or the error of the first attempt
/// whose path is refused.
pub open spec fn attempts_result(attempts: Seq<WireInputAttempt>) -> Result<Seq<(InputDeliveryPath, bool, Seq<char>)>, Seq<char>>
    decreases attempts.len(),
{
    if attempts.len() == 0 {
        Ok(Seq::empty())
    } else {
        match attempts_result(attempts.drop_last()) {
            Err(e) => Err(e),
            Ok(done) => match delivery_path_result(attempts.last().path) {
                Err(e) => Err(e),
                Ok(path) => Ok(done.push((path, attempts.last().succeeded, attempts.last().message@))),
            },
        }
    }
}

/// The driver result of a wire result, by its views, or the error of the
/// first field that is refused: the selected path, the attempts in order,
/// then the mouse, focus and clipboard disturbance.
pub open spec fn input_action_result(action: WireInputActionResult) -> Result<
    (InputDeliveryPath, Seq<(InputDeliveryPath, bool, Seq<char>)>, DisturbanceLevel, DisturbanceLevel, DisturbanceLevel),
    Seq<char>,
> {
    match delivery_path_result(action.selected_path) {
        Err(e) => Err(e),
        Ok(selected) => match attempts_result(action.attempts@) {
            Err(e) => Err(e),
            Ok(attempts) => match disturbance_result(action.mouse_disturbance) {
                Err(e) => Err(e),
                Ok(mouse) => match disturbance_result(action.focus_disturbance) {
                    Err(e) => Err(e),
                    Ok(focus) => match disturbance_result(action.clipboard_disturbance) {
                        Err(e) => Err(e),
                        Ok(clipboard) => Ok((selected, attempts, mouse, focus, clipboard)),
                    },
                },
            },
        },
    }
}

/// Maps the wire attempts to the driver's, in order.
fn attempts_from_proto(attempts: &Vec<WireInputAttempt>) -> (r: Result<Vec<InputAttempt>, String>)
    ensures
        match attempts_result(attempts@) {
            Ok(views) => r matches Ok(v) && attempt_views(v@) == views,
            Err(e) => r matches Err(m) && m@ == e,
        },
{
    let mut out: Vec<InputAttempt> = Vec::new();
    assert(attempts@.take(0) =~= Seq::<WireInputAttempt>::empty());
    assert(attempt_views(out@) =~= Seq::<(InputDeliveryPath, bool, Seq<char>)>::empty());
    let mut i: usize = 0;
    while i < attempts.len()
        invariant
            i <= attempts@.len(),
            attempts_result(attempts@.take(i as int)) == Ok::<Seq<(InputDeliveryPath, bool, Seq<char>)>, Seq<char>>(
                attempt_views(out@),
            ),
        decreases attempts@.len() - i,
    {
        proof {
            assert(attempts@.take(i + 1).drop_last() =~= attempts@.take(i as int));
            assert(attempts@.take(i + 1).last() == attempts@[i as int]);
        }
        let attempt = &attempts[i];
        let path = match delivery_path(attempt.path) {
            Ok(path) => path,
            Err(error) => {
                proof {
                    lemma_attempts_error_persists(attempts@, i as int + 1);
                }
                return Err(error);
            },
        };
        let ghost before = out@;
        out.push(InputAttempt { path, succeeded: attempt.succeeded, message: attempt.message.clone() });
        assert(attempt_views(out@) =~= attempt_views(before).push((path, attempt.succeeded, attempt.message@)));
        i = i + 1;
    }
    assert(attempts@.take(i as int) =~= attempts@);
    Ok(out)
}

/// Once a prefix of the attempts is refused, so are all longer prefixes,
/// with the same error.
proof fn lemma_attempts_error_persists(attempts: Seq<WireInputAttempt>, n: int)
    requires
        0 <= n <= attempts.len(),
        attempts_result(attempts.take(n)) is Err,
    ensures
        attempts_result(attempts) == attempts_result(attempts.take(n)),
    decreases attempts.len() - n,
{
    if n < attempts.len() {
        assert(attempts.take(n + 1).drop_last() =~= attempts.take(n));
        lemma_attempts_error_persists(attempts, n + 1);
    } else {
        assert(attempts.take(n) =~= attempts);
    }
}

/// A driver result that has the views a wire result projects to, and is
/// not marked verified (the wire form carries no semantic verification).
pub open spec fn projects_to(
    result: InputActionResult,
    v: (InputDeliveryPath, Seq<(InputDeliveryPath, bool, Seq<char>)>, DisturbanceLevel, DisturbanceLevel, DisturbanceLevel),
) -> bool {
    &&& result.selected_path == v.0
    &&& attempt_views(result.attempts@) == v.1
    &&& !result.verified
    &&& result.mouse_disturbance == v.2
    &&& result.focus_disturbance == v.3
    &&& result.clipboard_disturbance == v.4
}

/// Projects a Runner's wire input action result onto the driver's result.
pub fn project_input_action(action: &WireInputActionResult) -> (r: Result<InputActionResult, String>)
    ensures
        match input_action_result(*action) {
            Ok(v) => r matches Ok(result) && projects_to(result, v),
            Err(e) => r matches Err(m) && m@ == e,
        },
{
    let selected_path = match delivery_path(action.selected_path) {
        Ok(path) => path,
        Err(error) => return Err(error),
    };
    let attempts = match attempts_from_proto(&action.attempts) {
        Ok(attempts) => attempts,
        Err(error) => return Err(error),
    };
    let mouse_disturbance = match disturbance(action.mouse_disturbance) {
        Ok(level) => level,
        Err(error) => return Err(error),
    };
    let focus_disturbance = match disturbance(action.focus_disturbance) {
        Ok(level) => level,
        Err(error) => return Err(error),
    };
    let clipboard_disturbance = match disturbance(action.clipboard_disturbance) {
        Ok(level) => level,
        Err(error) => return Err(error),
    };
    Ok(InputActionResult {
        selected_path,
        attempts,
        verified: false,
        mouse_disturbance,
        focus_disturbance,
        clipboard_disturbance,
    })
}

/// Maps a Runner's wire input action result back to the driver's result:
/// the projection, then the driver's own validation of the projected result
/// (`validate`, the driver's check of a result), whose refusal is the error.
pub fn input_action_from_proto<V: Fn(&InputActionResult) -> Result<(), String>>(
    action: &WireInputActionResult,
    validate: V,
) -> (r: Result<InputActionResult, String>)
    requires
        forall|result: &InputActionResult| call_requires(validate, (result,)),
    ensures
        match input_action_result(*action) {
            Err(e) => r matches Err(m) && m@ == e,
            Ok(v) => exists|projected: InputActionResult, outcome: Result<(), String>|
                #![trigger call_ensures(validate, (&projected,), outcome)]
                projects_to(projected, v) && call_ensures(validate, (&projected,), outcome) && match outcome {
                    Ok(_) => r == Ok::<InputActionResult, String>(projected),
                    Err(error) => r == Err::<InputActionResult, String>(error),
                },
        },
{
    let projected = match project_input_action(action) {
        Ok(projected) => projected,
        Err(error) => return Err(error),
    };
    let outcome = validate(&projected);
    match outcome {
        Ok(_) => Ok(projected),
        Err(error) => Err(error),
    }
}

/// The error for a field a Runner's response left out.
pub open spec fn omitted_text(rpc: Seq<char>, what: Seq<char>) -> Seq<char> {
    rpc + " response omitted "@ + what
}

/// A field a Runner's response must carry, or the error naming the RPC and
/// the field it left out.
pub fn required_field<T>(field: Option<T>, rpc: &str, what: &str) -> (r: Result<T, String>)
    ensures
        match field {
            Some(v) => r == Ok::<T, String>(v),
            None => r matches Err(e) && e@ == omitted_text(rpc@, what@),
        },
{
    match field {
        Some(v) => Ok(v),
        None => {
            let mut e = owned(rpc);
            e.append(" response omitted ");
            e.append(what);
            Err(e)
        },
    }
}

/// The input action result of an input RPC's response (`TypeText`,
/// `PasteText`, `PressKey`, `ClickScreenPoint`, `ClickWindowPoint`): it must
/// be present, and is then mapped back to the driver's result and validated.
pub fn response_input_action<V: Fn(&InputActionResult) -> Result<(), String>>(
    action: Option<WireInputActionResult>,
    rpc: &str,
    validate: V,
) -> (r: Result<InputActionResult, String>)
    requires
        forall|result: &InputActionResult| call_requires(validate, (result,)),
    ensures
        match action {
            None => r matches Err(e) && e@ == omitted_text(rpc@, "InputActionResult"@),
            Some(action) => match input_action_result(action) {
                Err(e) => r matches Err(m) && m@ == e,
                Ok(v) => exists|projected: InputActionResult, outcome: Result<(), String>|
                    #![trigger call_ensures(validate, (&projected,), outcome)]
                    projects_to(projected, v) && call_ensures(validate, (&projected,), outcome) && match outcome {
                        Ok(_) => r == Ok::<InputActionResult, String>(projected),
                        Err(error) => r == Err::<InputActionResult, String>(error),
                    },
            },
        },
{
    let action = match required_field(action, rpc, "InputActionResult") {
        Ok(action) => action,
        Err(error) => return Err(error),
    };
    input_action_from_proto(&action, validate)
}

/// Every known wire delivery path maps to the driver path of the same
/// name, and every known disturbance level to the level of the same name;
/// only the unspecified value and unknown numbers are refused.
pub proof fn lemma_wire_values_keep_their_names()
    ensures
        delivery_path_result(WireDeliveryPath::Noop) == Ok::<InputDeliveryPath, Seq<char>>(InputDeliveryPath::Noop),
        delivery_path_result(WireDeliveryPath::AxPress) == Ok::<InputDeliveryPath, Seq<char>>(InputDeliveryPath::AxPress),
        delivery_path_result(WireDeliveryPath::AxFocus) == Ok::<InputDeliveryPath, Seq<char>>(InputDeliveryPath::AxFocus),
        delivery_path_result(WireDeliveryPath::AxSetValue) == Ok::<InputDeliveryPath, Seq<char>>(InputDeliveryPath::AxSetValue),
        delivery_path_result(WireDeliveryPath::AxScroll) == Ok::<InputDeliveryPath, Seq<char>>(InputDeliveryPath::AxScroll),
        delivery_path_result(WireDeliveryPath::AxSelectedText) == Ok::<InputDeliveryPath, Seq<char>>(InputDeliveryPath::AxSelectedText),
        delivery_path_result(WireDeliveryPath::WindowTargetedMouse) == Ok::<InputDeliveryPath, Seq<char>>(InputDeliveryPath::WindowTargetedMouse),
        delivery_path_result(WireDeliveryPath::WindowTargetedWheel) == Ok::<InputDeliveryPath, Seq<char>>(InputDeliveryPath::WindowTargetedWheel),
        delivery_path_result(WireDeliveryPath::WindowTargetedKeyboard) == Ok::<InputDeliveryPath, Seq<char>>(InputDeliveryPath::WindowTargetedKeyboard),
        delivery_path_result(WireDeliveryPath::WindowTargetedKeyboardScroll) == Ok::<InputDeliveryPath, Seq<char>>(InputDeliveryPath::WindowTargetedKeyboardScroll),
        delivery_path_result(WireDeliveryPath::ClipboardPaste) == Ok::<InputDeliveryPath, Seq<char>>(InputDeliveryPath::ClipboardPaste),
        delivery_path_result(WireDeliveryPath::ForegroundSystemEvents) == Ok::<InputDeliveryPath, Seq<char>>(InputDeliveryPath::ForegroundSystemEvents),
        delivery_path_result(WireDeliveryPath::Unsupported) == Ok::<InputDeliveryPath, Seq<char>>(InputDeliveryPath::Unsupported),
        disturbance_result(WireDisturbance::NoDisturbance) == Ok::<DisturbanceLevel, Seq<char>>(DisturbanceLevel::NoDisturbance),
        disturbance_result(WireDisturbance::Temporary) == Ok::<DisturbanceLevel, Seq<char>>(DisturbanceLevel::Temporary),
        disturbance_result(WireDisturbance::Foreground) == Ok::<DisturbanceLevel, Seq<char>>(DisturbanceLevel::Foreground),
        disturbance_result(WireDisturbance::Unknown) == Ok::<DisturbanceLevel, Seq<char>>(DisturbanceLevel::Unknown),
        delivery_path_result(WireDeliveryPath::Unspecified) is Err,
        disturbance_result(WireDisturbance::Unspecified) is Err,
        forall|v: i32| #[trigger] delivery_path_result(WireDeliveryPath::Unrecognized(v)) is Err,
        forall|v: i32| #[trigger] disturbance_result(WireDisturbance::Unrecognized(v)) is Err,
{
}

/// Distinct wire delivery paths that are accepted map to distinct driver
/// paths, and every driver path is the image of one: accepted paths map
/// one-to-one onto the driver's paths.
pub proof fn lemma_delivery_paths_are_one_to_one(a: WireDeliveryPath, b: WireDeliveryPath, target: InputDeliveryPath)
    ensures
        (delivery_path_result(a) is Ok && delivery_path_result(b) is Ok && a != b) ==> delivery_path_result(a)
            != delivery_path_result(b),
        exists|w: WireDeliveryPath| delivery_path_result(w) == Ok::<InputDeliveryPath, Seq<char>>(target),
{
    lemma_wire_values_keep_their_names();
    match target {
        InputDeliveryPath::Noop => assert(delivery_path_result(WireDeliveryPath::Noop) == Ok::<InputDeliveryPath, Seq<char>>(target)),
        InputDeliveryPath::AxPress => assert(delivery_path_result(WireDeliveryPath::AxPress) == Ok::<InputDeliveryPath, Seq<char>>(target)),
        InputDeliveryPath::AxFocus => assert(delivery_path_result(WireDeliveryPath::AxFocus) == Ok::<InputDeliveryPath, Seq<char>>(target)),
        InputDeliveryPath::AxSetValue => assert(delivery_path_result(WireDeliveryPath::AxSetValue) == Ok::<InputDeliveryPath, Seq<char>>(target)),
        InputDeliveryPath::AxScroll => assert(delivery_path_result(WireDeliveryPath::AxScroll) == Ok::<InputDeliveryPath, Seq<char>>(target)),
        InputDeliveryPath::AxSelectedText => assert(delivery_path_result(WireDeliveryPath::AxSelectedText) == Ok::<InputDeliveryPath, Seq<char>>(target)),
        InputDeliveryPath::WindowTargetedMouse => assert(delivery_path_result(WireDeliveryPath::WindowTargetedMouse) == Ok::<InputDeliveryPath, Seq<char>>(target)),
        InputDeliveryPath::WindowTargetedWheel => assert(delivery_path_result(WireDeliveryPath::WindowTargetedWheel) == Ok::<InputDeliveryPath, Seq<char>>(target)),
        InputDeliveryPath::WindowTargetedKeyboard => assert(delivery_path_result(WireDeliveryPath::WindowTargetedKeyboard) == Ok::<InputDeliveryPath, Seq<char>>(target)),
        InputDeliveryPath::WindowTargetedKeyboardScroll => assert(delivery_path_result(WireDeliveryPath::WindowTargetedKeyboardScroll) == Ok::<InputDeliveryPath, Seq<char>>(target)),
        InputDeliveryPath::ClipboardPaste => assert(delivery_path_result(WireDeliveryPath::ClipboardPaste) == Ok::<InputDeliveryPath, Seq<char>>(target)),
        InputDeliveryPath::ForegroundSystemEvents => assert(delivery_path_result(WireDeliveryPath::ForegroundSystemEvents) == Ok::<InputDeliveryPath, Seq<char>>(target)),
        InputDeliveryPath::Unsupported => assert(delivery_path_result(WireDeliveryPath::Unsupported) == Ok::<InputDeliveryPath, Seq<char>>(target)),
    }
}

/// A projected input action result keeps the selected path and each
/// attempt's path by name, and each attempt's outcome and message.
pub proof fn lemma_projection_keeps_paths(action: WireInputActionResult)
    requires
        input_action_result(action) is Ok,
    ensures
        delivery_path_result(action.selected_path) == Ok::<InputDeliveryPath, Seq<char>>(input_action_result(action)->Ok_0.0),
        input_action_result(action)->Ok_0.1.len() == action.attempts@.len(),
        forall|k: int|
            0 <= k < action.attempts@.len() ==> delivery_path_result(#[trigger] action.attempts@[k].path) == Ok::<
                InputDeliveryPath,
                Seq<char>,
            >(input_action_result(action)->Ok_0.1[k].0) && input_action_result(action)->Ok_0.1[k].1
                == action.attempts@[k].succeeded && input_action_result(action)->Ok_0.1[k].2
                == action.attempts@[k].message@,
{
    lemma_attempts_keep_paths(action.attempts@);
}

proof fn lemma_attempts_keep_paths(attempts: Seq<WireInputAttempt>)
    requires
        attempts_result(attempts) is Ok,
    ensures
        attempts_result(attempts)->Ok_0.len() == attempts.len(),
        forall|k: int|
            0 <= k < attempts.len() ==> delivery_path_result(#[trigger] attempts[k].path) == Ok::<InputDeliveryPath, Seq<char>>(
                attempts_result(attempts)->Ok_0[k].0,
            ) && attempts_result(attempts)->Ok_0[k].1 == attempts[k].succeeded && attempts_result(attempts)->Ok_0[k].2
                == attempts[k].message@,
    decreases attempts.len(),
{
    if attempts.len() > 0 {
        lemma_attempts_keep_paths(attempts.drop_last());
        assert forall|k: int| 0 <= k < attempts.len() implies delivery_path_result(#[trigger] attempts[k].path) == Ok::<
            InputDeliveryPath,
            Seq<char>,
        >(attempts_result(attempts)->Ok_0[k].0) && attempts_result(attempts)->Ok_0[k].1 == attempts[k].succeeded
            && attempts_result(attempts)->Ok_0[k].2 == attempts[k].message@ by {
            if k < attempts.len() - 1 {
                assert(attempts[k] == attempts.drop_last()[k]);
            }
        }
    }
}

} // verus!
